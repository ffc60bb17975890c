//! The application's configuration: its defaults, the probe sources it
//! prefers, what the scheduler is handed, and what is exported.

use vstd::prelude::*;
use vstd::utf8::encode_utf8;
use crate::models::{
    keys_unique, lemma_member_index, lemma_member_lookup_push, member_index, member_lookup, member_set, mview,
    ConfigValue, ConfigView, DdnsProfile, FieldView, IpAddress, JsonField,
};
use crate::network::{pick_default_ipv6_interface, spec_has_global_v6, spec_str_lt};
use crate::scheduler::texts;
use crate::storage::{answers_fit, answers_view, requests_view, spec_all_resaves, spec_filled, spec_secret_fields, spec_set_requests, KeyringRequest};
use crate::text::{owned, str_eq};
use crate::vault::{secrets_wf, spec_loaded, spec_opened, spec_plaintext_max, spec_sealed, StorageError};

verus! {

/// The settings of the application.
#[derive(Debug)]
pub struct AppConfig {
    pub profiles: Vec<DdnsProfile>,
    pub check_interval_minutes: u32,
    pub run_on_startup: bool,
    pub default_ipv4_urls: Vec<String>,
    pub default_ipv6_urls: Vec<String>,
    /// The code of the interface language.
    pub language: String,
}

/// The language of a configuration that names none.
pub fn default_language() -> (r: String)
    ensures
        r@ == "en"@,
{
    owned("en")
}

/// The IPv4 probes of a new configuration.
pub open spec fn spec_default_ipv4_urls() -> Seq<Seq<char>> {
    seq!["https://v4.ident.me"@, "https://api.ipify.org"@]
}

/// The IPv6 probes of a new configuration.
pub open spec fn spec_default_ipv6_urls() -> Seq<Seq<char>> {
    seq!["https://v6.ident.me"@, "https://api64.ipify.org"@]
}

fn two_urls(a: &str, b: &str) -> (r: Vec<String>)
    ensures
        texts(r@) == seq![a@, b@],
{
    let mut v: Vec<String> = Vec::new();
    v.push(owned(a));
    v.push(owned(b));
    assert(texts(v@) =~= seq![a@, b@]);
    v
}

impl Default for AppConfig {
    /// No profiles, a check every 5 minutes, not started with the system, the
    /// default probes and English.
    fn default() -> (r: Self)
        ensures
            r.profiles@.len() == 0,
            r.check_interval_minutes == 5,
            !r.run_on_startup,
            texts(r.default_ipv4_urls@) == spec_default_ipv4_urls(),
            texts(r.default_ipv6_urls@) == spec_default_ipv6_urls(),
            r.language@ == "en"@,
    {
        AppConfig {
            profiles: Vec::new(),
            check_interval_minutes: 5,
            run_on_startup: false,
            default_ipv4_urls: two_urls("https://v4.ident.me", "https://api.ipify.org"),
            default_ipv6_urls: two_urls("https://v6.ident.me", "https://api64.ipify.org"),
            language: default_language(),
        }
    }
}

/// `name` is the interface to probe IPv6 on: of the interfaces with a global
/// unicast IPv6 address, the name that sorts first.
pub open spec fn spec_default_ipv6_interface(ifaces: Seq<(String, IpAddress)>, name: Seq<char>) -> bool {
    &&& exists|i: int| 0 <= i < ifaces.len() && spec_has_global_v6(#[trigger] ifaces[i]) && ifaces[i].0@ == name
    &&& forall|i: int| 0 <= i < ifaces.len() && spec_has_global_v6(#[trigger] ifaces[i]) ==> !spec_str_lt(ifaces[i].0@, name)
}

/// The IPv6 probes are the defaults or none, so an interface may take their place.
pub open spec fn spec_ipv6_probes_replaceable(urls: Seq<Seq<char>>) -> bool {
    urls.len() == 0 || urls == spec_default_ipv6_urls()
}

fn urls_eq(v: &Vec<String>, a: &str, b: &str) -> (r: bool)
    ensures
        r == (texts(v@) == seq![a@, b@]),
{
    if v.len() != 2 {
        proof {
            if texts(v@) == seq![a@, b@] {
                assert(texts(v@).len() == 2);
            }
        }
        false
    } else {
        let r = str_eq(v[0].as_str(), a) && str_eq(v[1].as_str(), b);
        proof {
            if r {
                assert(texts(v@) =~= seq![a@, b@]);
            }
            if texts(v@) == seq![a@, b@] {
                assert(texts(v@)[0] == a@);
                assert(texts(v@)[1] == b@);
            }
        }
        r
    }
}

/// When the IPv6 probes are the defaults or none and an interface has a
/// global unicast IPv6 address, probes that interface instead; reports
/// whether the configuration changed.
pub fn prefer_interface_ipv6_sources(config: &mut AppConfig, ifaces: &Vec<(String, IpAddress)>) -> (r: bool)
    ensures
        r == (spec_ipv6_probes_replaceable(texts(old(config).default_ipv6_urls@))
            && exists|name: Seq<char>| spec_default_ipv6_interface(ifaces@, name)),
        r ==> exists|name: Seq<char>| spec_default_ipv6_interface(ifaces@, name)
            && texts(final(config).default_ipv6_urls@) == seq!["interface://"@ + name],
        !r ==> texts(final(config).default_ipv6_urls@) == texts(old(config).default_ipv6_urls@),
        final(config).profiles@ == old(config).profiles@,
        final(config).check_interval_minutes == old(config).check_interval_minutes,
        final(config).run_on_startup == old(config).run_on_startup,
        texts(final(config).default_ipv4_urls@) == texts(old(config).default_ipv4_urls@),
        final(config).language@ == old(config).language@,
{
    let replaceable = config.default_ipv6_urls.len() == 0
        || urls_eq(&config.default_ipv6_urls, "https://v6.ident.me", "https://api64.ipify.org");
    if !replaceable {
        return false;
    }
    match pick_default_ipv6_interface(ifaces) {
        Some(name) => {
            let mut v: Vec<String> = Vec::new();
            v.push(owned("interface://").concat(name.as_str()));
            assert(texts(v@) =~= seq!["interface://"@ + name@]);
            assert(spec_default_ipv6_interface(ifaces@, name@));
            config.default_ipv6_urls = v;
            true
        },
        None => {
            proof {
                if exists|name: Seq<char>| spec_default_ipv6_interface(ifaces@, name) {
                    let name = choose|name: Seq<char>| spec_default_ipv6_interface(ifaces@, name);
                    let i = choose|i: int| 0 <= i < ifaces@.len() && spec_has_global_v6(#[trigger] ifaces@[i]) && ifaces@[i].0@ == name;
                    assert(!spec_has_global_v6(ifaces@[i]));
                }
            }
            false
        },
    }
}

/// What the scheduler works from: whether it runs, the profiles with their
/// secrets filled in, the interval and the probes.
#[derive(Debug)]
pub struct SchedulerConfig {
    pub running: bool,
    pub profiles: Vec<DdnsProfile>,
    pub interval_minutes: u32,
    pub ipv4_urls: Vec<String>,
    pub ipv6_urls: Vec<String>,
}

impl SchedulerConfig {
    /// The providers the application that keeps encrypted secrets updates
    /// with: Cloudflare and the generic HTTP provider.
    pub fn providers_map(&self) -> (r: Vec<String>)
        ensures
            texts(r@) == seq!["cloudflare"@, "generic"@],
    {
        let mut v: Vec<String> = Vec::new();
        v.push(owned(crate::providers::cloudflare::CloudflareProvider::new().id()));
        v.push(owned(crate::providers::generic::GenericHttpProvider::new().id()));
        assert(texts(v@) =~= seq!["cloudflare"@, "generic"@]);
        v
    }
}

/// Every profile's settings are a JSON object with each key once, or another value.
pub open spec fn profiles_wf(ps: Seq<DdnsProfile>) -> bool {
    forall|i: int| 0 <= i < ps.len() ==> (#[trigger] ps[i]).provider_config@.well_formed()
}

/// Whether no two members of an object share a name.
fn names_distinct(m: &Vec<(String, JsonField)>) -> (r: bool)
    ensures
        r == keys_unique(mview(m@)),
{
    let ghost v = mview(m@);
    let mut i: usize = 0;
    while i < m.len()
        invariant
            i <= m.len(),
            v == mview(m@),
            forall|a: int, b: int| 0 <= a < b < v.len() && a < i ==> v[a].0 != v[b].0,
        decreases m.len() - i,
    {
        let mut j: usize = i + 1;
        while j < m.len()
            invariant
                i < j <= m.len(),
                i < m.len(),
                v == mview(m@),
                forall|a: int, b: int| 0 <= a < b < v.len() && a < i ==> v[a].0 != v[b].0,
                forall|b: int| i < b < j ==> v[i as int].0 != v[b].0,
            decreases m.len() - j,
        {
            proof {
                assert(v[i as int].0 == m@[i as int].0@);
                assert(v[j as int].0 == m@[j as int].0@);
            }
            if str_eq(m[i].0.as_str(), m[j].0.as_str()) {
                return false;
            }
            j = j + 1;
        }
        i = i + 1;
    }
    true
}

/// Whether every profile's settings are well formed: an object's member
/// names are distinct.
pub fn profiles_well_formed(ps: &Vec<DdnsProfile>) -> (r: bool)
    ensures
        r == profiles_wf(ps@),
{
    let mut i: usize = 0;
    while i < ps.len()
        invariant
            i <= ps.len(),
            forall|k: int| 0 <= k < i ==> (#[trigger] ps@[k]).provider_config@.well_formed(),
        decreases ps.len() - i,
    {
        let ok = match &ps[i].provider_config {
            ConfigValue::Object(m) => names_distinct(m),
            _ => true,
        };
        if !ok {
            return false;
        }
        i = i + 1;
    }
    true
}

fn copy_urls(v: &Vec<String>) -> (r: Vec<String>)
    ensures
        texts(r@) == texts(v@),
{
    let mut out: Vec<String> = Vec::new();
    let mut i: usize = 0;
    while i < v.len()
        invariant
            i <= v.len(),
            texts(out@) == texts(v@.take(i as int)),
        decreases v.len() - i,
    {
        let ghost before = out@;
        out.push(v[i].clone());
        proof {
            assert(texts(out@) =~= texts(before).push(v@[i as int]@));
            assert(v@.take(i + 1) =~= v@.take(i as int).push(v@[i as int]));
            assert(texts(v@.take(i + 1)) =~= texts(v@.take(i as int)).push(v@[i as int]@));
        }
        i = i + 1;
    }
    assert(v@.take(v.len() as int) =~= v@);
    out
}

fn copy_profiles(v: &Vec<DdnsProfile>) -> (r: Vec<DdnsProfile>)
    ensures
        r@.len() == v@.len(),
        forall|i: int| 0 <= i < r@.len() ==> (#[trigger] r@[i]).same_but_config(v@[i]) && r@[i].provider_config@ == v@[i].provider_config@,
{
    let mut out: Vec<DdnsProfile> = Vec::new();
    let mut i: usize = 0;
    while i < v.len()
        invariant
            i <= v.len(),
            out@.len() == i,
            forall|k: int| 0 <= k < i ==> (#[trigger] out@[k]).same_but_config(v@[k]) && out@[k].provider_config@ == v@[k].provider_config@,
        decreases v.len() - i,
    {
        out.push(v[i].clone());
        i = i + 1;
    }
    out
}

/// What the scheduler is handed: the running flag, the profiles with their
/// secrets filled in from the credential store's answers to their reads
/// (`StorageManager::secret_loads`, one list per profile) where their
/// settings lack them, the interval and the probes of the configuration;
/// with the requests that store the profiles' secrets again.
pub fn build_scheduler_config(config: &AppConfig, storage: &crate::storage::StorageManager, answers: &Vec<Vec<Option<String>>>, running: bool) -> (r: (SchedulerConfig, Vec<KeyringRequest>))
    requires
        profiles_wf(config.profiles@),
        answers@.len() == config.profiles@.len(),
        forall|i: int| 0 <= i < config.profiles@.len() ==> answers_fit(config.profiles@[i], #[trigger] answers@[i]@),
    ensures
        r.0.running == running,
        r.0.interval_minutes == config.check_interval_minutes,
        texts(r.0.ipv4_urls@) == texts(config.default_ipv4_urls@),
        texts(r.0.ipv6_urls@) == texts(config.default_ipv6_urls@),
        r.0.profiles@.len() == config.profiles@.len(),
        forall|i: int| 0 <= i < r.0.profiles@.len() ==> (#[trigger] r.0.profiles@[i]).same_but_config(config.profiles@[i]),
        forall|i: int| 0 <= i < r.0.profiles@.len() ==> (#[trigger] r.0.profiles@[i]).provider_config@
            == spec_filled(config.profiles@[i].provider_config@, spec_secret_fields(config.profiles@[i].provider_type@), answers_view(answers@[i]@)),
        requests_view(r.1@) == spec_all_resaves(r.0.profiles@),
{
    let mut profiles = copy_profiles(&config.profiles);
    let requests = storage.inject_secrets_into_profiles(&mut profiles, answers);
    (SchedulerConfig {
        running,
        profiles,
        interval_minutes: config.check_interval_minutes,
        ipv4_urls: copy_urls(&config.default_ipv4_urls),
        ipv6_urls: copy_urls(&config.default_ipv6_urls),
    }, requests)
}

/// The settings of a profile once its Cloudflare token is filled in: a
/// Cloudflare profile whose settings are an object without `api_token` gets
/// the decrypted secret stored under its id, when there is one that
/// decrypts; any other profile keeps its settings.
pub open spec fn spec_token_injected(key: Seq<u8>, secrets: Seq<(String, String)>, p: DdnsProfile, after: ConfigView) -> bool {
    let before = p.provider_config@;
    let token = match member_lookup(mview(secrets), p.id@) {
        Some(enc) => spec_opened(key, enc),
        None => None,
    };
    if p.provider_type@ == "cloudflare"@ && before is Object && before.member("api_token"@) is None && token is Some {
        &&& after is Object
        &&& after.well_formed()
        &&& after.member("api_token"@) == Some(FieldView::Text(token.unwrap()))
        &&& forall|k: Seq<char>| k != "api_token"@ ==> after.member(k) == before.member(k)
    } else {
        after == before
    }
}

/// Fills in the Cloudflare token of each profile that lacks one from the
/// encrypted secrets stored under its id.
pub fn inject_cloudflare_tokens(vault: &crate::vault::StorageManager, secrets: &Vec<(String, String)>, profiles: &mut Vec<DdnsProfile>)
    requires
        profiles_wf(old(profiles)@),
    ensures
        final(profiles)@.len() == old(profiles)@.len(),
        forall|i: int| 0 <= i < final(profiles)@.len() ==> (#[trigger] final(profiles)@[i]).same_but_config(old(profiles)@[i]),
        forall|i: int| 0 <= i < final(profiles)@.len() ==> spec_token_injected(vault.key(), secrets@, old(profiles)@[i],
            (#[trigger] final(profiles)@[i]).provider_config@),
{
    let ghost ps0 = profiles@;
    let mut i: usize = 0;
    while i < profiles.len()
        invariant
            i <= profiles.len(),
            profiles@.len() == ps0.len(),
            forall|j: int| i <= j < ps0.len() ==> profiles@[j] == ps0[j],
            profiles_wf(ps0),
            forall|j: int| 0 <= j < i ==> (#[trigger] profiles@[j]).same_but_config(ps0[j]),
            forall|j: int| 0 <= j < i ==> spec_token_injected(vault.key(), secrets@, ps0[j], (#[trigger] profiles@[j]).provider_config@),
        decreases ps0.len() - i,
    {
        let mut p = profiles[i].clone();
        proof { assert(ps0[i as int].provider_config@.well_formed()); }
        if str_eq(p.provider_type.as_str(), "cloudflare") && !p.provider_config.contains_key("api_token") {
            match vault.load_secret(secrets, p.id.as_str()) {
                Ok(token) => {
                    p.provider_config.insert_text("api_token", token);
                },
                Err(_) => {},
            }
        }
        proof {
            assert(p.provider_config@.well_formed()) by {
                if p.provider_config@ is Object {
                    assert(p.provider_config@.well_formed());
                }
            }
        }
        profiles.set(i, p);
        i = i + 1;
    }
}

/// What the scheduler is handed by the application that keeps encrypted
/// secrets: the running flag, the profiles with their Cloudflare tokens
/// filled in, the interval and the probes of the configuration.
pub fn build_vault_scheduler_config(config: &AppConfig, vault: &crate::vault::StorageManager, secrets: &Vec<(String, String)>, running: bool) -> (r: SchedulerConfig)
    requires
        profiles_wf(config.profiles@),
    ensures
        r.running == running,
        r.interval_minutes == config.check_interval_minutes,
        texts(r.ipv4_urls@) == texts(config.default_ipv4_urls@),
        texts(r.ipv6_urls@) == texts(config.default_ipv6_urls@),
        r.profiles@.len() == config.profiles@.len(),
        forall|i: int| 0 <= i < r.profiles@.len() ==> (#[trigger] r.profiles@[i]).same_but_config(config.profiles@[i]),
        forall|i: int| 0 <= i < r.profiles@.len() ==> spec_token_injected(vault.key(), secrets@, config.profiles@[i],
            (#[trigger] r.profiles@[i]).provider_config@),
{
    let mut profiles = copy_profiles(&config.profiles);
    proof {
        assert forall|i: int| 0 <= i < profiles@.len() implies (#[trigger] profiles@[i]).provider_config@.well_formed() by {
            assert(config.profiles@[i].provider_config@.well_formed());
        }
    }
    let ghost ps1 = profiles@;
    inject_cloudflare_tokens(vault, secrets, &mut profiles);
    proof {
        assert forall|i: int| 0 <= i < profiles@.len() implies spec_token_injected(vault.key(), secrets@, config.profiles@[i],
            (#[trigger] profiles@[i]).provider_config@) by {
            assert(spec_token_injected(vault.key(), secrets@, ps1[i], profiles@[i].provider_config@));
            assert(ps1[i].same_but_config(config.profiles@[i]));
        }
    }
    SchedulerConfig {
        running,
        profiles,
        interval_minutes: config.check_interval_minutes,
        ipv4_urls: copy_urls(&config.default_ipv4_urls),
        ipv6_urls: copy_urls(&config.default_ipv6_urls),
    }
}

/// A configuration and secrets, as exported to a file and imported back.
#[derive(Debug)]
pub struct FullExport {
    pub config: AppConfig,
    /// Secrets by key, each key at most once.
    pub secrets: Vec<(String, String)>,
}

/// The export of a configuration whose secrets stay in the credential store:
/// the configuration and no secrets, so that none is written out in plain text.
pub fn export_full_config(config: AppConfig) -> (r: FullExport)
    ensures
        r.config == config,
        r.secrets@.len() == 0,
{
    FullExport { config, secrets: Vec::new() }
}

/// The requests that store each imported secret in the credential store
/// under its key, in order; a refusal of the store is passed over.
pub fn import_keyring_secrets(storage: &crate::storage::StorageManager, secrets: &Vec<(String, String)>) -> (r: Vec<KeyringRequest>)
    ensures
        requests_view(r@) == spec_set_requests(secrets@.map_values(|p: (String, String)| (p.0@, p.1@))),
{
    let ghost ps = secrets@.map_values(|p: (String, String)| (p.0@, p.1@));
    let mut out: Vec<KeyringRequest> = Vec::new();
    let mut i: usize = 0;
    while i < secrets.len()
        invariant
            i <= secrets.len(),
            ps == secrets@.map_values(|p: (String, String)| (p.0@, p.1@)),
            requests_view(out@) == spec_set_requests(ps.take(i as int)),
        decreases secrets.len() - i,
    {
        let ghost before = out@;
        out.push(storage.save_secret(secrets[i].0.as_str(), secrets[i].1.as_str()));
        proof {
            assert(ps[i as int] == (secrets@[i as int].0@, secrets@[i as int].1@));
            assert(ps.take(i + 1) =~= ps.take(i as int).push(ps[i as int]));
            assert(requests_view(out@) =~= requests_view(before).push(out@[i as int]@));
        }
        i = i + 1;
    }
    proof { assert(ps.take(secrets.len() as int) =~= ps); }
    out
}

/// The secret exported for the key `k`: when a profile has the id `k` and
/// the secret stored under it decrypts, its plaintext.
pub open spec fn spec_exported_secret(key: Seq<u8>, stored: Seq<(String, String)>, profiles: Seq<DdnsProfile>, k: Seq<char>) -> Option<Seq<char>> {
    let opened = match member_lookup(mview(stored), k) {
        Some(enc) => spec_opened(key, enc),
        None => None,
    };
    if (exists|i: int| 0 <= i < profiles.len() && (#[trigger] profiles[i]).id@ == k) && opened is Some {
        opened
    } else {
        None
    }
}

/// The decrypted secrets of the profiles, by profile id, for an export.
pub fn export_vault_secrets(vault: &crate::vault::StorageManager, stored: &Vec<(String, String)>, profiles: &Vec<DdnsProfile>) -> (r: Vec<(String, String)>)
    ensures
        keys_unique(mview(r@)),
        forall|k: Seq<char>| member_lookup(mview(r@), k) == spec_exported_secret(vault.key(), stored@, profiles@, k),
{
    let mut out: Vec<(String, String)> = Vec::new();
    let mut i: usize = 0;
    assert(mview(out@) =~= Seq::<(Seq<char>, Seq<char>)>::empty());
    while i < profiles.len()
        invariant
            i <= profiles.len(),
            keys_unique(mview(out@)),
            forall|k: Seq<char>| member_lookup(mview(out@), k) == spec_exported_secret(vault.key(), stored@, profiles@.take(i as int), k),
        decreases profiles.len() - i,
    {
        let ghost before = out@;
        let ghost id = profiles@[i as int].id@;
        match vault.load_secret(stored, profiles[i].id.as_str()) {
            Ok(secret) => {
                member_set(&mut out, profiles[i].id.as_str(), secret);
            },
            Err(_) => {},
        }
        proof {
            let next = profiles@.take(i + 1);
            assert forall|k: Seq<char>| member_lookup(mview(out@), k) == spec_exported_secret(vault.key(), stored@, next, k) by {
                if k == id {
                    assert(next[i as int].id@ == k);
                } else {
                    if exists|j: int| 0 <= j < next.len() && (#[trigger] next[j]).id@ == k {
                        let j = choose|j: int| 0 <= j < next.len() && (#[trigger] next[j]).id@ == k;
                        assert(profiles@.take(i as int)[j].id@ == k);
                    }
                    if exists|j: int| 0 <= j < i && (#[trigger] profiles@.take(i as int)[j]).id@ == k {
                        let j = choose|j: int| 0 <= j < i && (#[trigger] profiles@.take(i as int)[j]).id@ == k;
                        assert(next[j].id@ == k);
                    }
                }
            }
            if member_lookup(mview(before), id) is Some {
                let j = choose|j: int| 0 <= j < i && (#[trigger] profiles@.take(i as int)[j]).id@ == id;
                assert(next[j].id@ == id);
            }
        }
        i = i + 1;
    }
    assert(profiles@.take(profiles.len() as int) =~= profiles@);
    out
}

/// Encrypts and stores each imported secret under its profile id, stopping
/// at the first that cannot be encrypted; a key not imported keeps what was
/// stored under it.
pub fn import_vault_secrets(vault: &crate::vault::StorageManager, stored: &mut Vec<(String, String)>, incoming: &Vec<(String, String)>) -> (r: Result<(), StorageError>)
    requires
        secrets_wf(old(stored)@),
        keys_unique(mview(incoming@)),
        forall|i: int| 0 <= i < incoming@.len() ==> encode_utf8((#[trigger] incoming@[i]).1@).len() <= usize::MAX / 2,
    ensures
        secrets_wf(final(stored)@),
        r matches Err(e) ==> e is Encryption,
        forall|k: Seq<char>| member_lookup(mview(incoming@), k) is None ==>
            member_lookup(mview(final(stored)@), k) == member_lookup(mview(old(stored)@), k),
        r is Ok ==> forall|k: Seq<char>| #[trigger] member_lookup(mview(incoming@), k) is Some ==>
            exists|n: Seq<u8>| n.len() == 12 && spec_sealed(vault.key(), n, member_lookup(mview(incoming@), k).unwrap()) == member_lookup(mview(final(stored)@), k),
        r is Ok ==> forall|k: Seq<char>| #[trigger] member_lookup(mview(incoming@), k) is Some ==>
            spec_loaded(vault.key(), final(stored)@, k) == member_lookup(mview(incoming@), k),
        r is Ok <==> forall|i: int| 0 <= i < incoming@.len() ==> encode_utf8((#[trigger] incoming@[i]).1@).len() <= spec_plaintext_max(),
{
    let ghost s0 = stored@;
    let mut i: usize = 0;
    while i < incoming.len()
        invariant
            i <= incoming.len(),
            s0 == old(stored)@,
            secrets_wf(stored@),
            keys_unique(mview(incoming@)),
            forall|j: int| 0 <= j < incoming@.len() ==> encode_utf8((#[trigger] incoming@[j]).1@).len() <= usize::MAX / 2,
            forall|k: Seq<char>| member_lookup(mview(incoming@.take(i as int)), k) is None ==>
                member_lookup(mview(stored@), k) == member_lookup(mview(s0), k),
            forall|k: Seq<char>| #[trigger] member_lookup(mview(incoming@.take(i as int)), k) is Some ==>
                exists|n: Seq<u8>| n.len() == 12 && spec_sealed(vault.key(), n, member_lookup(mview(incoming@.take(i as int)), k).unwrap()) == member_lookup(mview(stored@), k),
            forall|k: Seq<char>| #[trigger] member_lookup(mview(incoming@.take(i as int)), k) is Some ==>
                spec_loaded(vault.key(), stored@, k) == member_lookup(mview(incoming@.take(i as int)), k),
            forall|j: int| 0 <= j < i ==> encode_utf8((#[trigger] incoming@[j]).1@).len() <= spec_plaintext_max(),
        decreases incoming.len() - i,
    {
        proof { assert(encode_utf8(incoming@[i as int].1@).len() <= usize::MAX / 2); }
        let ghost before = stored@;
        let ghost pre = mview(incoming@.take(i as int));
        let ghost e = (incoming@[i as int].0@, incoming@[i as int].1@);
        proof {
            assert(mview(incoming@.take(i + 1)) =~= pre.push(e));
        }
        let res = vault.save_secret(stored, incoming[i].0.as_str(), incoming[i].1.as_str());
        match res {
            Err(e) => {
                proof {
                    assert forall|k: Seq<char>| member_lookup(mview(incoming@), k) is None implies
                        member_lookup(mview(stored@), k) == member_lookup(mview(s0), k) by {
                        lemma_member_index(mview(incoming@), k);
                        lemma_member_index(pre, k);
                        if member_index(pre, k) >= 0 {
                            let j = member_index(pre, k);
                            assert(mview(incoming@)[j] == pre[j]);
                        }
                        assert(member_lookup(pre, k) is None);
                        assert(stored@ == before);
                    }
                    assert(encode_utf8(incoming@[i as int].1@).len() > spec_plaintext_max());
                }
                return Err(e);
            },
            Ok(()) => {},
        }
        proof {
            assert forall|k: Seq<char>| member_lookup(mview(incoming@.take(i + 1)), k) is None implies
                member_lookup(mview(stored@), k) == member_lookup(mview(s0), k) by {
                lemma_member_lookup_push(pre, e, k);
            }
            assert forall|k: Seq<char>| #[trigger] member_lookup(mview(incoming@.take(i + 1)), k) is Some implies
                exists|n: Seq<u8>| n.len() == 12 && spec_sealed(vault.key(), n, member_lookup(mview(incoming@.take(i + 1)), k).unwrap()) == member_lookup(mview(stored@), k) by {
                lemma_member_lookup_push(pre, e, k);
            }
            assert forall|k: Seq<char>| #[trigger] member_lookup(mview(incoming@.take(i + 1)), k) is Some implies
                spec_loaded(vault.key(), stored@, k) == member_lookup(mview(incoming@.take(i + 1)), k) by {
                lemma_member_lookup_push(pre, e, k);
                if k != e.0 {
                    assert(member_lookup(mview(stored@), k) == member_lookup(mview(before), k));
                }
            }
        }
        i = i + 1;
    }
    proof {
        assert(incoming@.take(incoming@.len() as int) =~= incoming@);
    }
    Ok(())
}

/// Importing what was exported loads back the same secrets: when
/// `export_vault_secrets` gave `exported` from the store `before`, and
/// `import_vault_secrets` of it succeeded into a store under the same key,
/// every profile whose secret loaded from `before` loads the same secret
/// from the store after the import.
pub proof fn law_import_loads_exported(key: Seq<u8>, before: Seq<(String, String)>, profiles: Seq<DdnsProfile>, exported: Seq<(String, String)>, after: Seq<(String, String)>, k: Seq<char>)
    requires
        forall|x: Seq<char>| member_lookup(mview(exported), x) == spec_exported_secret(key, before, profiles, x),
        forall|x: Seq<char>| #[trigger] member_lookup(mview(exported), x) is Some ==>
            spec_loaded(key, after, x) == member_lookup(mview(exported), x),
    ensures
        (exists|i: int| 0 <= i < profiles.len() && (#[trigger] profiles[i]).id@ == k) && spec_loaded(key, before, k) is Some
            ==> spec_loaded(key, after, k) == spec_loaded(key, before, k),
{
    if (exists|i: int| 0 <= i < profiles.len() && (#[trigger] profiles[i]).id@ == k) && spec_loaded(key, before, k) is Some {
        assert(member_lookup(mview(exported), k) == spec_exported_secret(key, before, profiles, k));
    }
}

/// The probe source of a network interface: `interface://NAME`.
pub fn interface_probe(name: &str) -> (r: String)
    ensures
        r@ == "interface://"@ + name@,
{
    owned("interface://").concat(name)
}

/// Adds a probe source unless the list already has it; reports whether it
/// was added.
pub fn add_probe_once(urls: &mut Vec<String>, url: String) -> (r: bool)
    ensures
        r == !texts(old(urls)@).contains(url@),
        r ==> texts(final(urls)@) == texts(old(urls)@).push(url@),
        !r ==> final(urls)@ == old(urls)@,
{
    let mut i: usize = 0;
    while i < urls.len()
        invariant
            i <= urls.len(),
            forall|k: int| 0 <= k < i ==> urls@[k]@ != url@,
        decreases urls.len() - i,
    {
        if str_eq(urls[i].as_str(), url.as_str()) {
            proof { assert(texts(urls@)[i as int] == url@); }
            return false;
        }
        i = i + 1;
    }
    proof {
        assert(!texts(urls@).contains(url@)) by {
            if texts(urls@).contains(url@) {
                let k = choose|k: int| 0 <= k < texts(urls@).len() && texts(urls@)[k] == url@;
                assert(urls@[k]@ == url@);
            }
        }
    }
    let ghost before = urls@;
    urls.push(url);
    assert(texts(urls@) =~= texts(before).push(urls@.last()@));
    true
}

/// Adds a probe source typed in by the user, unless it is empty; reports
/// whether it was added.
pub fn add_probe(urls: &mut Vec<String>, url: String) -> (r: bool)
    ensures
        r == (url@.len() > 0),
        r ==> texts(final(urls)@) == texts(old(urls)@).push(url@),
        !r ==> final(urls)@ == old(urls)@,
{
    if url.as_str().unicode_len() == 0 {
        return false;
    }
    let ghost before = urls@;
    let ghost u = url@;
    urls.push(url);
    assert(texts(urls@) =~= texts(before).push(u));
    true
}

/// A change to a list of probe sources.
#[derive(Debug, Clone, Copy, PartialEq, Eq, Structural)]
pub enum ProbeEdit {
    /// Drop the source at this position.
    Remove(usize),
    /// Swap the source at this position with the one before it.
    MoveUp(usize),
    /// Swap the source at this position with the one after it.
    MoveDown(usize),
}

/// The change fits the list: it names a source there, with a neighbour in
/// the direction of a move.
pub open spec fn spec_probe_edit_fits(len: int, e: ProbeEdit) -> bool {
    match e {
        ProbeEdit::Remove(i) => i < len,
        ProbeEdit::MoveUp(i) => 0 < i < len,
        ProbeEdit::MoveDown(i) => i + 1 < len,
    }
}

/// The list after a change.
pub open spec fn spec_probe_edit(urls: Seq<Seq<char>>, e: ProbeEdit) -> Seq<Seq<char>> {
    match e {
        ProbeEdit::Remove(i) => urls.remove(i as int),
        ProbeEdit::MoveUp(i) => urls.update(i as int, urls[i - 1]).update(i - 1, urls[i as int]),
        ProbeEdit::MoveDown(i) => urls.update(i as int, urls[i + 1]).update(i + 1, urls[i as int]),
    }
}

/// Applies a change to a list of probe sources.
pub fn edit_probes(urls: &mut Vec<String>, e: ProbeEdit)
    requires
        spec_probe_edit_fits(old(urls)@.len() as int, e),
    ensures
        texts(final(urls)@) == spec_probe_edit(texts(old(urls)@), e),
{
    let ghost before = texts(urls@);
    match e {
        ProbeEdit::Remove(i) => {
            urls.remove(i);
            assert(texts(urls@) =~= before.remove(i as int));
        },
        ProbeEdit::MoveUp(i) => {
            let x = urls.remove(i);
            urls.insert(i - 1, x);
            assert(texts(urls@) =~= before.update(i as int, before[i - 1]).update(i - 1, before[i as int]));
        },
        ProbeEdit::MoveDown(i) => {
            assert(i + 1 < urls.len());
            let j = i + 1;
            let x = urls.remove(i);
            urls.insert(j, x);
            assert(texts(urls@) =~= before.update(i as int, before[i + 1]).update(i + 1, before[i as int]));
        },
    }
}

} // verus!
