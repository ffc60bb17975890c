//! Provider secrets kept out of the configuration file, in the operating
//! system's credential store.

use vstd::prelude::*;
use crate::models::{lemma_member_lookup_push, spec_with_member, ConfigValue, ConfigView, DdnsProfile, FieldView, JsonField};
use crate::text::{owned, str_eq};

verus! {

/// Errors of the configuration and secret store.
#[derive(Debug)]
pub enum StorageError {
    Io(String),
    Json(String),
    Encryption(String),
    NoConfigDir,
}

/// The message of a storage error.
pub open spec fn spec_storage_message(e: StorageError) -> Seq<char> {
    match e {
        StorageError::Io(m) => "IO error: "@ + m@,
        StorageError::Json(m) => "JSON error: "@ + m@,
        StorageError::Encryption(m) => "Encryption error: "@ + m@,
        StorageError::NoConfigDir => "Failed to determine config directory"@,
    }
}

impl StorageError {
    /// The message of this error.
    pub fn message(&self) -> (r: String)
        ensures
            r@ == spec_storage_message(*self),
    {
        match self {
            StorageError::Io(m) => owned("IO error: ").concat(m.as_str()),
            StorageError::Json(m) => owned("JSON error: ").concat(m.as_str()),
            StorageError::Encryption(m) => owned("Encryption error: ").concat(m.as_str()),
            StorageError::NoConfigDir => owned("Failed to determine config directory"),
        }
    }
}

/// What is asked of the credential store for one entry.
#[derive(Debug)]
pub enum KeyringOp {
    /// Store the password.
    Store(String),
    /// Read the password.
    Get,
    /// Delete the credential.
    Delete,
}

pub enum KeyringOpView {
    Store(Seq<char>),
    Get,
    Delete,
}

/// One request to the operating system's credential store: the entry is
/// named by `service` and `user`.
#[derive(Debug)]
pub struct KeyringRequest {
    pub service: String,
    pub user: String,
    pub op: KeyringOp,
}

pub struct KeyringRequestView {
    pub service: Seq<char>,
    pub user: Seq<char>,
    pub op: KeyringOpView,
}

impl View for KeyringRequest {
    type V = KeyringRequestView;

    open spec fn view(&self) -> KeyringRequestView {
        KeyringRequestView {
            service: self.service@,
            user: self.user@,
            op: match self.op {
                KeyringOp::Store(p) => KeyringOpView::Store(p@),
                KeyringOp::Get => KeyringOpView::Get,
                KeyringOp::Delete => KeyringOpView::Delete,
            },
        }
    }
}

/// The request `op` on the entry `key` of the service `SimpleDDNS`.
pub open spec fn spec_keyring_request(key: Seq<char>, op: KeyringOpView) -> KeyringRequestView {
    KeyringRequestView { service: "SimpleDDNS"@, user: key, op }
}

/// The views of a list of requests.
pub open spec fn requests_view(v: Seq<KeyringRequest>) -> Seq<KeyringRequestView> {
    v.map_values(|r: KeyringRequest| r@)
}

/// The requests that store each secret under its key, in order.
pub open spec fn spec_set_requests(pairs: Seq<(Seq<char>, Seq<char>)>) -> Seq<KeyringRequestView> {
    pairs.map_values(|p: (Seq<char>, Seq<char>)| spec_keyring_request(p.0, KeyringOpView::Store(p.1)))
}

fn keyring_request(key: &str, op: KeyringOp) -> (r: KeyringRequest)
    ensures
        r.service@ == "SimpleDDNS"@,
        r.user@ == key@,
        r.op == op,
{
    KeyringRequest { service: owned("SimpleDDNS"), user: owned(key), op }
}

/// The requests that store each pair's secret under its key, in order.
fn set_requests(pairs: &Vec<(String, String)>) -> (r: Vec<KeyringRequest>)
    ensures
        requests_view(r@) == spec_set_requests(pairs@.map_values(|p: (String, String)| (p.0@, p.1@))),
{
    let ghost ps = pairs@.map_values(|p: (String, String)| (p.0@, p.1@));
    let mut out: Vec<KeyringRequest> = Vec::new();
    let mut i: usize = 0;
    while i < pairs.len()
        invariant
            i <= pairs.len(),
            ps == pairs@.map_values(|p: (String, String)| (p.0@, p.1@)),
            requests_view(out@) == spec_set_requests(ps.take(i as int)),
        decreases pairs.len() - i,
    {
        let ghost before = out@;
        out.push(keyring_request(pairs[i].0.as_str(), KeyringOp::Store(pairs[i].1.clone())));
        proof {
            assert(ps[i as int] == (pairs@[i as int].0@, pairs@[i as int].1@));
            assert(ps.take(i + 1) =~= ps.take(i as int).push(ps[i as int]));
            assert(requests_view(out@) =~= requests_view(before).push(out@[i as int]@));
            assert(spec_set_requests(ps.take(i + 1)) =~= spec_set_requests(ps.take(i as int)).push(spec_keyring_request(ps[i as int].0, KeyringOpView::Store(ps[i as int].1))));
        }
        i = i + 1;
    }
    proof { assert(ps.take(pairs.len() as int) =~= ps); }
    out
}

/// The names of a provider's secret settings.
pub open spec fn spec_secret_fields(provider_type: Seq<char>) -> Seq<Seq<char>> {
    if provider_type == "cloudflare"@ {
        seq!["api_token"@]
    } else if provider_type == "aliyun"@ {
        seq!["access_key_id"@, "access_key_secret"@]
    } else if provider_type == "dnspod"@ {
        seq!["login_token"@]
    } else if provider_type == "godaddy"@ {
        seq!["key"@, "secret"@]
    } else if provider_type == "namecheap"@ {
        seq!["api_key"@]
    } else {
        Seq::empty()
    }
}

/// Returns the list of secret field names for a given provider type.
pub fn secret_fields_for_provider(provider_type: &str) -> (r: Vec<&'static str>)
    ensures
        r@.map_values(|s: &str| s@) == spec_secret_fields(provider_type@),
{
    let mut v: Vec<&'static str> = Vec::new();
    if str_eq(provider_type, "cloudflare") {
        v.push("api_token");
    } else if str_eq(provider_type, "aliyun") {
        v.push("access_key_id");
        v.push("access_key_secret");
    } else if str_eq(provider_type, "dnspod") {
        v.push("login_token");
    } else if str_eq(provider_type, "godaddy") {
        v.push("key");
        v.push("secret");
    } else if str_eq(provider_type, "namecheap") {
        v.push("api_key");
    }
    proof {
        assert(v@.map_values(|s: &str| s@) =~= spec_secret_fields(provider_type@));
    }
    v
}

/// The credential-store key of a profile's secret setting: `{profile_id}_{field}`.
pub open spec fn spec_secret_key(profile_id: Seq<char>, field: Seq<char>) -> Seq<char> {
    profile_id + "_"@ + field
}

/// The credential-store key of a profile's secret setting.
pub fn secret_key(profile_id: &str, field: &str) -> (r: String)
    ensures
        r@ == spec_secret_key(profile_id@, field@),
{
    owned(profile_id).concat("_").concat(field)
}

/// The credential-store keys of a profile: one per secret setting of its
/// provider, then the bare profile id, which older versions used.
pub open spec fn spec_profile_secret_keys(profile_id: Seq<char>, provider_type: Seq<char>) -> Seq<Seq<char>> {
    spec_secret_fields(provider_type).map_values(|f: Seq<char>| spec_secret_key(profile_id, f)).push(profile_id)
}

/// The credential-store keys that hold a profile's secrets.
pub fn profile_secret_keys(profile_id: &str, provider_type: &str) -> (r: Vec<String>)
    ensures
        r@.map_values(|s: String| s@) == spec_profile_secret_keys(profile_id@, provider_type@),
{
    let fields = secret_fields_for_provider(provider_type);
    let mut keys: Vec<String> = Vec::new();
    let mut i: usize = 0;
    while i < fields.len()
        invariant
            i <= fields.len(),
            fields@.map_values(|s: &str| s@) == spec_secret_fields(provider_type@),
            keys@.map_values(|s: String| s@) == spec_secret_fields(provider_type@).take(i as int).map_values(|f: Seq<char>| spec_secret_key(profile_id@, f)),
        decreases fields.len() - i,
    {
        let k = secret_key(profile_id, fields[i]);
        let ghost before = keys@;
        keys.push(k);
        proof {
            assert(fields@.map_values(|s: &str| s@)[i as int] == fields@[i as int]@);
            assert(keys@.map_values(|s: String| s@) =~= before.map_values(|s: String| s@).push(k@));
            assert(spec_secret_fields(provider_type@).take(i + 1) =~= spec_secret_fields(provider_type@).take(i as int).push(spec_secret_fields(provider_type@)[i as int]));
            assert(keys@.map_values(|s: String| s@) =~= spec_secret_fields(provider_type@).take(i + 1).map_values(|f: Seq<char>| spec_secret_key(profile_id@, f)));
        }
        i = i + 1;
    }
    let ghost before = keys@;
    keys.push(owned(profile_id));
    proof {
        assert(spec_secret_fields(provider_type@).take(fields.len() as int) =~= spec_secret_fields(provider_type@));
        assert(keys@.map_values(|s: String| s@) =~= before.map_values(|s: String| s@).push(profile_id@));
    }
    keys
}


/// A provider's secret settings are named differently from one another.
pub proof fn lemma_secret_fields_distinct(provider_type: Seq<char>)
    ensures
        spec_secret_fields(provider_type).no_duplicates(),
{
    reveal_strlit("access_key_id");
    reveal_strlit("access_key_secret");
    reveal_strlit("key");
    reveal_strlit("secret");
    let f = spec_secret_fields(provider_type);
    if provider_type == "aliyun"@ && provider_type != "cloudflare"@ {
        assert("access_key_id"@[11] != "access_key_secret"@[11]);
    }
    if provider_type == "godaddy"@ && provider_type != "cloudflare"@ && provider_type != "aliyun"@ && provider_type != "dnspod"@ {
        assert("key"@[0] != "secret"@[0]);
    }
}

/// The secrets held in the settings under the given names, in the order of
/// the names: for each name whose member is a non-empty string, its
/// credential-store key and the string.
pub open spec fn spec_secret_pairs(cfg: ConfigView, profile_id: Seq<char>, fields: Seq<Seq<char>>) -> Seq<(Seq<char>, Seq<char>)>
    decreases fields.len(),
{
    if fields.len() == 0 {
        Seq::empty()
    } else {
        let rest = spec_secret_pairs(cfg, profile_id, fields.drop_last());
        let f = fields.last();
        match cfg.text(f) {
            Some(s) => if s.len() > 0 { rest.push((spec_secret_key(profile_id, f), s)) } else { rest },
            None => rest,
        }
    }
}

/// A profile's settings with the secret members taken out: the named members
/// are gone and every other member is as before.
pub open spec fn spec_secrets_removed(before: ConfigView, after: ConfigView, fields: Seq<Seq<char>>) -> bool {
    &&& after.well_formed()
    &&& (before is Object <==> after is Object)
    &&& !(before is Object) ==> after == before
    &&& forall|k: Seq<char>| fields.contains(k) ==> after.member(k) is None
    &&& forall|k: Seq<char>| !fields.contains(k) ==> after.member(k) == before.member(k)
}

/// The settings with missing secrets filled in from what the store answered:
/// for each secret name in turn, a name the settings lack is added last with
/// the answer given for it, when one was given.
pub open spec fn spec_filled(before: ConfigView, fields: Seq<Seq<char>>, answers: Seq<Option<Seq<char>>>) -> ConfigView
    decreases fields.len(),
{
    if fields.len() == 0 || answers.len() != fields.len() {
        before
    } else {
        let c = spec_filled(before, fields.drop_last(), answers.drop_last());
        match answers.last() {
            Some(s) => if c.member(fields.last()) is None { spec_with_member(c, fields.last(), FieldView::Text(s)) } else { c },
            None => c,
        }
    }
}

pub open spec fn answers_view(v: Seq<Option<String>>) -> Seq<Option<Seq<char>>> {
    v.map_values(|a: Option<String>| match a { Some(s) => Some(s@), None => None })
}

/// Fills in the missing secret members of settings from the answers of the
/// store, one answer per secret name.
pub fn fill_secrets(config: &mut ConfigValue, fields: &Vec<&str>, answers: &Vec<Option<String>>)
    requires
        old(config)@.well_formed(),
        fields.len() == answers.len(),
    ensures
        final(config)@.well_formed(),
        final(config)@ == spec_filled(old(config)@, fields@.map_values(|f: &str| f@), answers_view(answers@)),
{
    let ghost c0 = config@;
    let ghost fs = fields@.map_values(|f: &str| f@);
    let ghost an = answers_view(answers@);
    let mut i: usize = 0;
    assert(fs.take(0).len() == 0);
    while i < fields.len()
        invariant
            i <= fields.len(),
            fields.len() == answers.len(),
            fs == fields@.map_values(|f: &str| f@),
            an == answers_view(answers@),
            config@.well_formed(),
            config@ == spec_filled(c0, fs.take(i as int), an.take(i as int)),
        decreases fields.len() - i,
    {
        proof {
            assert(fs.take(i + 1).drop_last() =~= fs.take(i as int));
            assert(an.take(i + 1).drop_last() =~= an.take(i as int));
            assert(fs.take(i + 1).last() == fields@[i as int]@);
        }
        match &answers[i] {
            Some(secret) => {
                if !config.contains_key(fields[i]) {
                    config.insert_text(fields[i], secret.clone());
                }
            },
            None => {},
        }
        i = i + 1;
    }
    proof {
        assert(fs.take(fields.len() as int) =~= fs);
        assert(an.take(fields.len() as int) =~= an);
    }
}

/// Takes the secret settings out of a profile: each secret member of its
/// provider is removed from its settings, and the non-empty string ones are
/// returned with their credential-store keys.
pub fn take_secret_fields(profile: &mut DdnsProfile) -> (r: Vec<(String, String)>)
    requires
        old(profile).provider_config@.well_formed(),
    ensures
        final(profile).same_but_config(*old(profile)),
        spec_secrets_removed(old(profile).provider_config@, final(profile).provider_config@, spec_secret_fields(old(profile).provider_type@)),
        r@.map_values(|p: (String, String)| (p.0@, p.1@)) == spec_secret_pairs(old(profile).provider_config@, old(profile).id@, spec_secret_fields(old(profile).provider_type@)),
{
    let fields = secret_fields_for_provider(profile.provider_type.as_str());
    let ghost fs = spec_secret_fields(profile.provider_type@);
    let ghost cfg0 = profile.provider_config@;
    let ghost p0 = *profile;
    proof { lemma_secret_fields_distinct(profile.provider_type@); }
    let mut out: Vec<(String, String)> = Vec::new();
    let mut i: usize = 0;
    while i < fields.len()
        invariant
            i <= fields.len(),
            fields@.map_values(|s: &str| s@) == fs,
            fs.no_duplicates(),
            profile.same_but_config(p0),
            fs == spec_secret_fields(p0.provider_type@),
            cfg0 == p0.provider_config@,
            spec_secrets_removed(cfg0, profile.provider_config@, fs.take(i as int)),
            out@.map_values(|p: (String, String)| (p.0@, p.1@)) == spec_secret_pairs(cfg0, p0.id@, fs.take(i as int)),
        decreases fields.len() - i,
    {
        let field = fields[i];
        let ghost before_cfg = profile.provider_config@;
        proof {
            assert(fields@.map_values(|s: &str| s@)[i as int] == field@);
            let t0 = fs.take(i as int);
            assert(!t0.contains(field@)) by {
                if t0.contains(field@) {
                    let j = choose|j: int| 0 <= j < t0.len() && #[trigger] t0[j] == field@;
                    assert(fs[j] == fs[i as int]);
                }
            }
            assert(fs.take(i + 1).drop_last() =~= fs.take(i as int));
            assert(fs.take(i + 1).last() == field@);
        }
        let removed = profile.provider_config.remove(field);
        match removed {
            Some(JsonField::Text(secret)) => {
                if !secret.as_str().is_empty() {
                    let k = secret_key(profile.id.as_str(), field);
                    let ghost before = out@;
                    out.push((k, secret));
                    proof {
                        assert(out@.map_values(|p: (String, String)| (p.0@, p.1@)) =~= before.map_values(|p: (String, String)| (p.0@, p.1@)).push((k@, secret@)));
                    }
                }
            },
            _ => {},
        }
        proof {
            let t0 = fs.take(i as int);
            let t1 = fs.take(i + 1);
            assert forall|k: Seq<char>| t1.contains(k) implies profile.provider_config@.member(k) is None by {
                if k != field@ {
                    let j = choose|j: int| 0 <= j < t1.len() && #[trigger] t1[j] == k;
                    assert(t0[j] == k);
                }
            }
            assert forall|k: Seq<char>| !t1.contains(k) implies profile.provider_config@.member(k) == cfg0.member(k) by {
                if t0.contains(k) {
                    let j = choose|j: int| 0 <= j < t0.len() && #[trigger] t0[j] == k;
                    assert(t1[j] == k);
                }
                assert(k != field@);
            }
        }
        i = i + 1;
    }
    proof {
        assert(fs.take(fields.len() as int) =~= fs);
    }
    out
}

/// The read requests for a profile's secret settings, one per secret name in
/// order: the entry `{id}_{field}` is read for each name the settings lack.
pub open spec fn spec_secret_loads(cfg: ConfigView, profile_id: Seq<char>, fields: Seq<Seq<char>>) -> Seq<Option<KeyringRequestView>> {
    fields.map_values(|f: Seq<char>| if cfg.member(f) is None {
        Some(spec_keyring_request(spec_secret_key(profile_id, f), KeyringOpView::Get))
    } else {
        None
    })
}

/// The requests that store again the secrets a profile's settings hold.
pub open spec fn spec_resaves(p: DdnsProfile) -> Seq<KeyringRequestView> {
    spec_set_requests(spec_secret_pairs(p.provider_config@, p.id@, spec_secret_fields(p.provider_type@)))
}

/// The requests that store again the secrets of each profile in turn.
pub open spec fn spec_all_resaves(ps: Seq<DdnsProfile>) -> Seq<KeyringRequestView>
    decreases ps.len(),
{
    if ps.len() == 0 {
        Seq::empty()
    } else {
        spec_all_resaves(ps.drop_last()) + spec_resaves(ps.last())
    }
}

/// The answers of a list of optional requests, one per secret name.
pub open spec fn answers_fit(p: DdnsProfile, answers: Seq<Option<String>>) -> bool {
    answers.len() == spec_secret_fields(p.provider_type@).len()
}

/// The entries of the credential store's service, by name, after carrying
/// out requests in order: storing sets the entry, deleting removes it, and
/// reading changes nothing.
pub open spec fn spec_store_after(store: Map<Seq<char>, Seq<char>>, reqs: Seq<KeyringRequestView>) -> Map<Seq<char>, Seq<char>>
    decreases reqs.len(),
{
    if reqs.len() == 0 {
        store
    } else {
        let s = spec_store_after(store, reqs.drop_last());
        let q = reqs.last();
        match q.op {
            KeyringOpView::Store(v) => s.insert(q.user, v),
            KeyringOpView::Delete => s.remove(q.user),
            KeyringOpView::Get => s,
        }
    }
}

/// What a store answers to a profile's reads: the entry read, when there is one.
pub open spec fn spec_store_answers(store: Map<Seq<char>, Seq<char>>, loads: Seq<Option<KeyringRequestView>>) -> Seq<Option<Seq<char>>> {
    loads.map_values(|l: Option<KeyringRequestView>| match l {
        Some(q) => if store.contains_key(q.user) { Some(store[q.user]) } else { None },
        None => None,
    })
}

/// Different secret names of a profile have different store keys.
proof fn lemma_secret_key_injective(id: Seq<char>, f1: Seq<char>, f2: Seq<char>)
    requires
        f1 != f2,
    ensures
        spec_secret_key(id, f1) != spec_secret_key(id, f2),
{
    let p = id + "_"@;
    assert(spec_secret_key(id, f1).subrange(p.len() as int, spec_secret_key(id, f1).len() as int) =~= f1);
    assert(spec_secret_key(id, f2).subrange(p.len() as int, spec_secret_key(id, f2).len() as int) =~= f2);
}

proof fn lemma_with_member(c: ConfigView, f: Seq<char>, v: FieldView, k: Seq<char>)
    requires
        c is Object,
    ensures
        spec_with_member(c, f, v).member(k) == if f == k { Some(v) } else { c.member(k) },
{
    lemma_member_lookup_push(c->Object_0, (f, v), k);
}

/// What the law below asks of a profile's settings and of the store.
pub open spec fn spec_roundtrip_ready(cfg: ConfigView, id: Seq<char>, fields: Seq<Seq<char>>, store: Map<Seq<char>, Seq<char>>) -> bool {
    &&& cfg is Object
    &&& cfg.well_formed()
    &&& forall|f: Seq<char>| #[trigger] fields.contains(f) && cfg.member(f) is Some ==> (cfg.text(f) matches Some(s) && s.len() > 0)
    &&& forall|f: Seq<char>| #[trigger] fields.contains(f) && cfg.member(f) is None ==> !store.contains_key(spec_secret_key(id, f))
}

proof fn lemma_roundtrip_one(cfg: ConfigView, after: ConfigView, id: Seq<char>, f: Seq<char>, store: Map<Seq<char>, Seq<char>>, k: Seq<char>)
    requires
        spec_roundtrip_ready(cfg, id, seq![f], store),
        spec_secrets_removed(cfg, after, seq![f]),
    ensures
        ({
            let fields = seq![f];
            let stored = spec_store_after(store, spec_set_requests(spec_secret_pairs(cfg, id, fields)));
            spec_filled(after, fields, spec_store_answers(stored, spec_secret_loads(after, id, fields))).member(k) == cfg.member(k)
        }),
{
    let fields = seq![f];
    assert(fields.contains(f));
    assert(fields.drop_last() =~= Seq::<Seq<char>>::empty());
    let pairs = spec_secret_pairs(cfg, id, fields);
    let reqs = spec_set_requests(pairs);
    let stored = spec_store_after(store, reqs);
    let loads = spec_secret_loads(after, id, fields);
    let answers = spec_store_answers(stored, loads);
    assert(spec_secret_pairs(cfg, id, fields.drop_last()) =~= Seq::<(Seq<char>, Seq<char>)>::empty());
    assert(fields.last() == f);
    assert(after.member(f) is None);
    assert(loads[0] == Some(spec_keyring_request(spec_secret_key(id, f), KeyringOpView::Get)));
    assert(answers.drop_last() =~= Seq::<Option<Seq<char>>>::empty());
    assert(spec_filled(after, fields.drop_last(), answers.drop_last()) == after);
    if k != f {
        assert(!fields.contains(k));
    }
    if cfg.member(f) is Some {
        let s = cfg.text(f)->0;
        assert(pairs =~= seq![(spec_secret_key(id, f), s)]);
        assert(reqs.drop_last() =~= Seq::<KeyringRequestView>::empty());
        assert(spec_store_after(store, reqs.drop_last()) == store);
        assert(reqs.last() == spec_keyring_request(spec_secret_key(id, f), KeyringOpView::Store(s)));
        assert(stored == store.insert(spec_secret_key(id, f), s));
        assert(answers[0] == Some(s));
        lemma_with_member(after, f, FieldView::Text(s), k);
    } else {
        assert(pairs =~= Seq::<(Seq<char>, Seq<char>)>::empty());
        assert(stored == store);
        assert(answers[0] is None);
    }
}

proof fn lemma_roundtrip_two(cfg: ConfigView, after: ConfigView, id: Seq<char>, f1: Seq<char>, f2: Seq<char>, store: Map<Seq<char>, Seq<char>>, k: Seq<char>)
    requires
        f1 != f2,
        spec_roundtrip_ready(cfg, id, seq![f1, f2], store),
        spec_secrets_removed(cfg, after, seq![f1, f2]),
    ensures
        ({
            let fields = seq![f1, f2];
            let stored = spec_store_after(store, spec_set_requests(spec_secret_pairs(cfg, id, fields)));
            spec_filled(after, fields, spec_store_answers(stored, spec_secret_loads(after, id, fields))).member(k) == cfg.member(k)
        }),
{
    let fields = seq![f1, f2];
    assert(fields.contains(f1));
    assert(fields.contains(f2));
    assert(fields.drop_last() =~= seq![f1]);
    assert(seq![f1].drop_last() =~= Seq::<Seq<char>>::empty());
    let k1 = spec_secret_key(id, f1);
    let k2 = spec_secret_key(id, f2);
    lemma_secret_key_injective(id, f1, f2);
    let p1 = spec_secret_pairs(cfg, id, seq![f1]);
    let pairs = spec_secret_pairs(cfg, id, fields);
    let r1 = spec_set_requests(p1);
    let reqs = spec_set_requests(pairs);
    let st1 = spec_store_after(store, r1);
    let stored = spec_store_after(store, reqs);
    let loads = spec_secret_loads(after, id, fields);
    let answers = spec_store_answers(stored, loads);
    assert(spec_secret_pairs(cfg, id, seq![f1].drop_last()) =~= Seq::<(Seq<char>, Seq<char>)>::empty());
    assert(seq![f1].last() == f1);
    assert(fields.last() == f2);
    assert(spec_secret_pairs(cfg, id, fields.drop_last()) == p1);
    assert(after.member(f1) is None);
    assert(after.member(f2) is None);
    assert(loads[0] == Some(spec_keyring_request(k1, KeyringOpView::Get)));
    assert(loads[1] == Some(spec_keyring_request(k2, KeyringOpView::Get)));
    // The first name.
    if cfg.member(f1) is Some {
        let s1 = cfg.text(f1)->0;
        assert(p1 =~= seq![(k1, s1)]);
        assert(r1.drop_last() =~= Seq::<KeyringRequestView>::empty());
        assert(spec_store_after(store, r1.drop_last()) == store);
        assert(r1.last() == spec_keyring_request(k1, KeyringOpView::Store(s1)));
        assert(st1 == store.insert(k1, s1));
    } else {
        assert(p1 =~= Seq::<(Seq<char>, Seq<char>)>::empty());
        assert(st1 == store);
    }
    // The second name.
    if cfg.member(f2) is Some {
        let s2 = cfg.text(f2)->0;
        assert(pairs =~= p1.push((k2, s2)));
        assert(reqs =~= r1.push(spec_keyring_request(k2, KeyringOpView::Store(s2))));
        assert(reqs.drop_last() =~= r1);
        assert(reqs.last() == spec_keyring_request(k2, KeyringOpView::Store(s2)));
        assert(stored == st1.insert(k2, s2));
    } else {
        assert(pairs =~= p1);
        assert(stored == st1);
    }
    let a0 = answers[0];
    let a1 = answers[1];
    assert(a0 == (if cfg.member(f1) is Some { Some(cfg.text(f1)->0) } else { None::<Seq<char>> }));
    assert(a1 == (if cfg.member(f2) is Some { Some(cfg.text(f2)->0) } else { None::<Seq<char>> }));
    assert(answers.drop_last() =~= seq![a0]);
    assert(seq![a0].drop_last() =~= Seq::<Option<Seq<char>>>::empty());
    let c1 = spec_filled(after, seq![f1], seq![a0]);
    assert(spec_filled(after, seq![f1].drop_last(), seq![a0].drop_last()) == after);
    assert(spec_filled(after, fields.drop_last(), answers.drop_last()) == c1);
    match a0 {
        Some(s1) => {
            assert(c1 == spec_with_member(after, f1, FieldView::Text(s1)));
            lemma_with_member(after, f1, FieldView::Text(s1), k);
            lemma_with_member(after, f1, FieldView::Text(s1), f2);
        },
        None => {
            assert(c1 == after);
        },
    }
    assert(c1 is Object);
    assert(c1.member(f2) is None);
    match a1 {
        Some(s2) => {
            lemma_with_member(c1, f2, FieldView::Text(s2), k);
        },
        None => {},
    }
}

/// Taking a profile's secrets out into the store and filling them back in
/// from it gives the settings back: after `extract_and_save_secrets` has
/// stored the secrets, the store answers the reads of `secret_loads` with
/// what it holds, and `inject_into_profile` fills them in, every member of
/// the settings is as it was (a filled-in secret comes last among the
/// members). This holds when the secret members are non-empty strings and
/// the store holds nothing under the keys of those the settings lack.
pub proof fn law_inject_restores_extracted(p: DdnsProfile, after: ConfigView, store: Map<Seq<char>, Seq<char>>, k: Seq<char>)
    requires
        spec_roundtrip_ready(p.provider_config@, p.id@, spec_secret_fields(p.provider_type@), store),
        spec_secrets_removed(p.provider_config@, after, spec_secret_fields(p.provider_type@)),
    ensures
        ({
            let cfg = p.provider_config@;
            let fields = spec_secret_fields(p.provider_type@);
            let stored = spec_store_after(store, spec_set_requests(spec_secret_pairs(cfg, p.id@, fields)));
            spec_filled(after, fields, spec_store_answers(stored, spec_secret_loads(after, p.id@, fields))).member(k) == cfg.member(k)
        }),
{
    let cfg = p.provider_config@;
    let fields = spec_secret_fields(p.provider_type@);
    let t = p.provider_type@;
    reveal_strlit("access_key_id");
    reveal_strlit("access_key_secret");
    reveal_strlit("key");
    reveal_strlit("secret");
    if fields.len() == 0 {
        assert(spec_secret_pairs(cfg, p.id@, fields) =~= Seq::<(Seq<char>, Seq<char>)>::empty());
        assert(!fields.contains(k));
    } else if t == "aliyun"@ && t != "cloudflare"@ {
        assert("access_key_id"@[11] != "access_key_secret"@[11]);
        lemma_roundtrip_two(cfg, after, p.id@, "access_key_id"@, "access_key_secret"@, store, k);
    } else if t == "godaddy"@ && t != "cloudflare"@ && t != "aliyun"@ && t != "dnspod"@ {
        assert("key"@[0] != "secret"@[0]);
        lemma_roundtrip_two(cfg, after, p.id@, "key"@, "secret"@, store, k);
    } else {
        lemma_roundtrip_one(cfg, after, p.id@, fields[0], store, k);
        assert(fields =~= seq![fields[0]]);
    }
}

/// Secrets in the operating system's credential store, under the service
/// name `SimpleDDNS`. The store is reached by the caller: each operation
/// gives the requests to carry out, and the store's answers are handed back.
pub struct StorageManager;

impl StorageManager {
    /// The manager of the credential store.
    pub fn new() -> (r: StorageManager) {
        StorageManager
    }

    /// The request that stores `secret` under `key`.
    pub fn save_secret(&self, key: &str, secret: &str) -> (r: KeyringRequest)
        ensures
            r@ == spec_keyring_request(key@, KeyringOpView::Store(secret@)),
    {
        keyring_request(key, KeyringOp::Store(owned(secret)))
    }

    /// The outcome of storing a secret from the store's answer: its refusal,
    /// with the store's message, is an encryption error.
    pub fn save_outcome(&self, answer: Result<(), String>) -> (r: Result<(), StorageError>)
        ensures
            answer is Ok <==> r is Ok,
            answer matches Err(m) ==> (r matches Err(StorageError::Encryption(e)) && e@ == m@),
    {
        match answer {
            Ok(()) => Ok(()),
            Err(m) => Err(StorageError::Encryption(m)),
        }
    }

    /// The request that reads the secret stored under `key`.
    pub fn load_secret(&self, key: &str) -> (r: KeyringRequest)
        ensures
            r@ == spec_keyring_request(key@, KeyringOpView::Get),
    {
        keyring_request(key, KeyringOp::Get)
    }

    /// The secret read from the store's answer: a missing secret or the
    /// store's refusal, with its message, is an encryption error.
    pub fn load_outcome(&self, answer: Result<String, String>) -> (r: Result<String, StorageError>)
        ensures
            answer matches Ok(s) ==> (r matches Ok(t) && t@ == s@),
            answer matches Err(m) ==> (r matches Err(StorageError::Encryption(e)) && e@ == m@),
    {
        match answer {
            Ok(s) => Ok(s),
            Err(m) => Err(StorageError::Encryption(m)),
        }
    }

    /// The request that deletes the secret stored under `key`; whatever the
    /// store answers, the deletion counts as done.
    pub fn delete_secret(&self, key: &str) -> (r: KeyringRequest)
        ensures
            r@ == spec_keyring_request(key@, KeyringOpView::Delete),
    {
        keyring_request(key, KeyringOp::Delete)
    }

    /// Remove secret fields from a profile's provider_config and store them
    /// securely in the OS keyring. The profile is modified in-place; the
    /// requests that store each non-empty secret under `{id}_{field}` are
    /// returned, in the order of the secret names (the store's answers to
    /// them are not looked at).
    pub fn extract_and_save_secrets(&self, profile: &mut DdnsProfile) -> (r: Vec<KeyringRequest>)
        requires
            old(profile).provider_config@.well_formed(),
        ensures
            final(profile).same_but_config(*old(profile)),
            spec_secrets_removed(old(profile).provider_config@, final(profile).provider_config@, spec_secret_fields(old(profile).provider_type@)),
            requests_view(r@) == spec_set_requests(spec_secret_pairs(old(profile).provider_config@, old(profile).id@, spec_secret_fields(old(profile).provider_type@))),
    {
        let pairs = take_secret_fields(profile);
        set_requests(&pairs)
    }

    /// The reads that fill in a profile's missing secret settings: for each
    /// secret name in order, the read of `{id}_{field}` when the settings
    /// lack that name, and none otherwise.
    pub fn secret_loads(&self, profile: &DdnsProfile) -> (r: Vec<Option<KeyringRequest>>)
        ensures
            r@.map_values(|o: Option<KeyringRequest>| match o { Some(q) => Some(q@), None => None })
                == spec_secret_loads(profile.provider_config@, profile.id@, spec_secret_fields(profile.provider_type@)),
    {
        let fields = secret_fields_for_provider(profile.provider_type.as_str());
        let ghost fs = spec_secret_fields(profile.provider_type@);
        let mut out: Vec<Option<KeyringRequest>> = Vec::new();
        let mut i: usize = 0;
        while i < fields.len()
            invariant
                i <= fields.len(),
                fields@.map_values(|f: &str| f@) == fs,
                out@.map_values(|o: Option<KeyringRequest>| match o { Some(q) => Some(q@), None => None })
                    == spec_secret_loads(profile.provider_config@, profile.id@, fs.take(i as int)),
            decreases fields.len() - i,
        {
            let ghost before = out@;
            proof { assert(fields@.map_values(|f: &str| f@)[i as int] == fields@[i as int]@); }
            let ghost f = fs[i as int];
            let ghost want: Option<KeyringRequestView> = if profile.provider_config@.member(f) is None {
                Some(spec_keyring_request(spec_secret_key(profile.id@, f), KeyringOpView::Get))
            } else {
                None
            };
            if profile.provider_config.contains_key(fields[i]) {
                out.push(None);
            } else {
                let k = secret_key(profile.id.as_str(), fields[i]);
                out.push(Some(keyring_request(k.as_str(), KeyringOp::Get)));
            }
            proof {
                assert(fs.take(i + 1) =~= fs.take(i as int).push(f));
                assert(spec_secret_loads(profile.provider_config@, profile.id@, fs.take(i + 1))
                    =~= spec_secret_loads(profile.provider_config@, profile.id@, fs.take(i as int)).push(want));
                assert(out@.map_values(|o: Option<KeyringRequest>| match o { Some(q) => Some(q@), None => None })
                    =~= before.map_values(|o: Option<KeyringRequest>| match o { Some(q) => Some(q@), None => None }).push(want));
            }
            i = i + 1;
        }
        proof { assert(fs.take(fields.len() as int) =~= fs); }
        out
    }

    /// Fills in a profile's missing secret settings from the store's answers
    /// to its reads (one per secret name, none where nothing was read or
    /// the read failed), then gives the requests that store again the
    /// non-empty secret settings it holds.
    pub fn inject_into_profile(&self, profile: &mut DdnsProfile, answers: &Vec<Option<String>>) -> (r: Vec<KeyringRequest>)
        requires
            old(profile).provider_config@.well_formed(),
            answers_fit(*old(profile), answers@),
        ensures
            final(profile).same_but_config(*old(profile)),
            final(profile).provider_config@.well_formed(),
            final(profile).provider_config@ == spec_filled(old(profile).provider_config@, spec_secret_fields(old(profile).provider_type@), answers_view(answers@)),
            requests_view(r@) == spec_resaves(*final(profile)),
    {
        let fields = secret_fields_for_provider(profile.provider_type.as_str());
        fill_secrets(&mut profile.provider_config, &fields, answers);
        let ghost after = *profile;
        let mut probe = profile.clone();
        let pairs = take_secret_fields(&mut probe);
        proof { assert(probe.provider_type@ == after.provider_type@); }
        set_requests(&pairs)
    }

    /// Inject secrets from the keyring back into profile provider_config
    /// so they are available for the scheduler: each profile is filled from
    /// the answers to its reads, and the requests that store again the
    /// secrets of each profile in turn are returned.
    pub fn inject_secrets_into_profiles(&self, profiles: &mut Vec<DdnsProfile>, answers: &Vec<Vec<Option<String>>>) -> (r: Vec<KeyringRequest>)
        requires
            forall|i: int| 0 <= i < old(profiles)@.len() ==> (#[trigger] old(profiles)@[i]).provider_config@.well_formed(),
            answers@.len() == old(profiles)@.len(),
            forall|i: int| 0 <= i < old(profiles)@.len() ==> answers_fit(old(profiles)@[i], #[trigger] answers@[i]@),
        ensures
            final(profiles)@.len() == old(profiles)@.len(),
            forall|i: int| 0 <= i < final(profiles)@.len() ==> (#[trigger] final(profiles)@[i]).same_but_config(old(profiles)@[i]),
            forall|i: int| 0 <= i < final(profiles)@.len() ==> (#[trigger] final(profiles)@[i]).provider_config@
                == spec_filled(old(profiles)@[i].provider_config@, spec_secret_fields(old(profiles)@[i].provider_type@), answers_view(answers@[i]@)),
            requests_view(r@) == spec_all_resaves(final(profiles)@),
    {
        let ghost ps0 = profiles@;
        let mut out: Vec<KeyringRequest> = Vec::new();
        let mut i: usize = 0;
        while i < profiles.len()
            invariant
                i <= profiles.len(),
                profiles@.len() == ps0.len(),
                answers@.len() == ps0.len(),
                forall|j: int| i <= j < ps0.len() ==> profiles@[j] == ps0[j],
                forall|j: int| 0 <= j < ps0.len() ==> (#[trigger] ps0[j]).provider_config@.well_formed(),
                forall|j: int| 0 <= j < ps0.len() ==> answers_fit(ps0[j], #[trigger] answers@[j]@),
                forall|j: int| 0 <= j < i ==> (#[trigger] profiles@[j]).same_but_config(ps0[j]),
                forall|j: int| 0 <= j < i ==> (#[trigger] profiles@[j]).provider_config@
                    == spec_filled(ps0[j].provider_config@, spec_secret_fields(ps0[j].provider_type@), answers_view(answers@[j]@)),
                requests_view(out@) == spec_all_resaves(profiles@.take(i as int)),
            decreases ps0.len() - i,
        {
            let mut p = profiles[i].clone();
            let mut more = self.inject_into_profile(&mut p, &answers[i]);
            let ghost before = out@;
            let ghost added = more@;
            let ghost done = profiles@.take(i as int);
            out.append(&mut more);
            profiles.set(i, p);
            proof {
                assert(profiles@.take(i as int) =~= done);
                assert(profiles@.take(i + 1).drop_last() =~= profiles@.take(i as int));
                assert(profiles@.take(i + 1).last() == profiles@[i as int]);
                assert(requests_view(out@) =~= requests_view(before) + requests_view(added));
            }
            i = i + 1;
        }
        proof { assert(profiles@.take(profiles.len() as int) =~= profiles@); }
        out
    }

    /// Delete all keyring secrets associated with a profile: the requests
    /// that delete `{id}_{field}` for each secret name of its provider, then
    /// the bare id.
    pub fn delete_profile_secrets(&self, profile_id: &str, provider_type: &str) -> (r: Vec<KeyringRequest>)
        ensures
            requests_view(r@) == spec_profile_secret_keys(profile_id@, provider_type@).map_values(|k: Seq<char>| spec_keyring_request(k, KeyringOpView::Delete)),
    {
        let keys = profile_secret_keys(profile_id, provider_type);
        let ghost ks = spec_profile_secret_keys(profile_id@, provider_type@);
        let mut out: Vec<KeyringRequest> = Vec::new();
        let mut i: usize = 0;
        while i < keys.len()
            invariant
                i <= keys.len(),
                keys@.map_values(|s: String| s@) == ks,
                requests_view(out@) == ks.take(i as int).map_values(|k: Seq<char>| spec_keyring_request(k, KeyringOpView::Delete)),
            decreases keys.len() - i,
        {
            let ghost before = out@;
            out.push(self.delete_secret(keys[i].as_str()));
            proof {
                assert(ks[i as int] == keys@[i as int]@);
                assert(ks.take(i + 1) =~= ks.take(i as int).push(ks[i as int]));
                assert(requests_view(out@) =~= requests_view(before).push(out@[i as int]@));
                assert(requests_view(out@) =~= ks.take(i + 1).map_values(|k: Seq<char>| spec_keyring_request(k, KeyringOpView::Delete)));
            }
            i = i + 1;
        }
        proof { assert(ks.take(keys.len() as int) =~= ks); }
        out
    }
}

} // verus!
