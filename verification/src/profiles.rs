//! The profile list: finding, saving, turning on and off and deleting
//! profiles, and the provider settings the profile editor reads and writes.

use vstd::prelude::*;
use crate::models::{new_uuid, member_index, member_lookup, ConfigValue, ConfigView, DdnsProfile, FieldView, JsonField, mview};
use crate::vault::{secrets_wf, spec_sealed, StorageError};
use vstd::utf8::encode_utf8;
use crate::text::{first_index_of, owned, spec_split_once, split_once, str_eq};

verus! {

/// The credential members the profile editor writes for a provider, from
/// its two key inputs.
pub open spec fn spec_provider_fields(provider: Seq<char>, k1: Seq<char>, k2: Seq<char>) -> Seq<(Seq<char>, FieldView)> {
    if provider == "aliyun"@ {
        seq![("access_key_id"@, FieldView::Text(k1)), ("access_key_secret"@, FieldView::Text(k2))]
    } else if provider == "cloudflare"@ {
        seq![("token"@, FieldView::Text(k1))]
    } else if provider == "dnspod"@ {
        seq![("login_token"@, FieldView::Text(k1 + ","@ + k2))]
    } else if provider == "godaddy"@ {
        seq![("key"@, FieldView::Text(k1)), ("secret"@, FieldView::Text(k2))]
    } else if provider == "namecheap"@ {
        seq![("api_user"@, FieldView::Text(k1)), ("api_key"@, FieldView::Text(k2))]
    } else {
        Seq::empty()
    }
}

/// The provider settings the profile editor writes: the zone, the
/// sub-domain, then the provider's credential members.
pub open spec fn spec_build_provider_config(provider: Seq<char>, k1: Seq<char>, k2: Seq<char>, domain: Seq<char>, sub: Seq<char>) -> ConfigView {
    ConfigView::Object(seq![("zone_name"@, FieldView::Text(domain)), ("sub_domain"@, FieldView::Text(sub))]
        + spec_provider_fields(provider, k1, k2))
}

fn push_text(m: &mut Vec<(String, JsonField)>, k: &str, v: String)
    ensures
        mview(final(m)@) == mview(old(m)@).push((k@, FieldView::Text(v@))),
{
    let ghost before = m@;
    m.push((owned(k), JsonField::Text(v)));
    assert(mview(m@) =~= mview(before).push((k@, FieldView::Text(v@))));
}

/// Builds the provider settings from the inputs of the profile editor: the
/// domain as the zone, the sub-domain, and the two keys as the provider's
/// credentials (for DNSPod joined by a comma into its login token).
pub fn build_provider_config(provider: &str, k1: &str, k2: &str, domain: &str, subdomain: &str) -> (r: ConfigValue)
    ensures
        r@ == spec_build_provider_config(provider@, k1@, k2@, domain@, subdomain@),
{
    let mut m: Vec<(String, JsonField)> = Vec::new();
    push_text(&mut m, "zone_name", owned(domain));
    push_text(&mut m, "sub_domain", owned(subdomain));
    if str_eq(provider, "aliyun") {
        push_text(&mut m, "access_key_id", owned(k1));
        push_text(&mut m, "access_key_secret", owned(k2));
    } else if str_eq(provider, "cloudflare") {
        push_text(&mut m, "token", owned(k1));
    } else if str_eq(provider, "dnspod") {
        push_text(&mut m, "login_token", owned(k1).concat(",").concat(k2));
    } else if str_eq(provider, "godaddy") {
        push_text(&mut m, "key", owned(k1));
        push_text(&mut m, "secret", owned(k2));
    } else if str_eq(provider, "namecheap") {
        push_text(&mut m, "api_user", owned(k1));
        push_text(&mut m, "api_key", owned(k2));
    }
    assert(mview(m@) =~= seq![("zone_name"@, FieldView::Text(domain@)), ("sub_domain"@, FieldView::Text(subdomain@))]
        + spec_provider_fields(provider@, k1@, k2@));
    ConfigValue::Object(m)
}

/// The string under `key`, or the empty text.
pub open spec fn text_or_empty(c: ConfigView, key: Seq<char>) -> Seq<char> {
    match c.text(key) {
        Some(t) => t,
        None => Seq::empty(),
    }
}

/// The two key inputs of the profile editor, read back from provider settings.
pub open spec fn spec_extract_provider_config(provider: Seq<char>, c: ConfigView) -> (Seq<char>, Seq<char>) {
    if provider == "aliyun"@ {
        (text_or_empty(c, "access_key_id"@), text_or_empty(c, "access_key_secret"@))
    } else if provider == "cloudflare"@ {
        (text_or_empty(c, "token"@), Seq::empty())
    } else if provider == "dnspod"@ {
        let token = text_or_empty(c, "login_token"@);
        match spec_split_once(token, ',') {
            Some((id, secret)) => (id, secret),
            None => (token, Seq::empty()),
        }
    } else if provider == "godaddy"@ {
        (text_or_empty(c, "key"@), text_or_empty(c, "secret"@))
    } else if provider == "namecheap"@ {
        (text_or_empty(c, "api_user"@), text_or_empty(c, "api_key"@))
    } else {
        (Seq::empty(), Seq::empty())
    }
}

fn get_or_empty(c: &ConfigValue, key: &str) -> (r: String)
    ensures
        r@ == text_or_empty(c@, key@),
{
    match c.get_text(key) {
        Some(t) => t,
        None => String::new(),
    }
}

/// Reads the two key inputs of the profile editor back from provider settings.
pub fn extract_provider_config(provider: &str, config: &ConfigValue) -> (r: (String, String))
    ensures
        (r.0@, r.1@) == spec_extract_provider_config(provider@, config@),
{
    if str_eq(provider, "aliyun") {
        (get_or_empty(config, "access_key_id"), get_or_empty(config, "access_key_secret"))
    } else if str_eq(provider, "cloudflare") {
        (get_or_empty(config, "token"), String::new())
    } else if str_eq(provider, "dnspod") {
        let token = get_or_empty(config, "login_token");
        match split_once(token.as_str(), ',') {
            Some((id, secret)) => (id, secret),
            None => (token, String::new()),
        }
    } else if str_eq(provider, "godaddy") {
        (get_or_empty(config, "key"), get_or_empty(config, "secret"))
    } else if str_eq(provider, "namecheap") {
        (get_or_empty(config, "api_user"), get_or_empty(config, "api_key"))
    } else {
        (String::new(), String::new())
    }
}

proof fn lemma_first_index_after(a: Seq<char>, b: Seq<char>, c: char)
    requires
        first_index_of(a, c) < 0,
    ensures
        first_index_of(a + b, c) == if first_index_of(b, c) < 0 { -1 } else { a.len() + first_index_of(b, c) },
    decreases a.len(),
{
    if a.len() == 0 {
        assert(a + b =~= b);
    } else {
        assert((a + b).drop_first() =~= a.drop_first() + b);
        lemma_first_index_after(a.drop_first(), b, c);
    }
}

/// The two keys the profile editor reads back from the settings it built.
pub open spec fn spec_keys_read_back(provider: Seq<char>, k1: Seq<char>, k2: Seq<char>) -> (Seq<char>, Seq<char>) {
    if provider == "aliyun"@ || provider == "dnspod"@ || provider == "godaddy"@ || provider == "namecheap"@ {
        (k1, k2)
    } else if provider == "cloudflare"@ {
        (k1, Seq::empty())
    } else {
        (Seq::empty(), Seq::empty())
    }
}

/// The profile editor reads back the keys it wrote: both keys for Aliyun,
/// DNSPod (when the first key has no comma), GoDaddy and Namecheap, the
/// first key for Cloudflare, none for other providers.
pub proof fn law_provider_config_roundtrip(provider: Seq<char>, k1: Seq<char>, k2: Seq<char>, domain: Seq<char>, sub: Seq<char>)
    requires
        provider == "dnspod"@ ==> first_index_of(k1, ',') < 0,
    ensures
        spec_extract_provider_config(provider, spec_build_provider_config(provider, k1, k2, domain, sub))
            == spec_keys_read_back(provider, k1, k2),
{
    reveal_strlit("zone_name");
    reveal_strlit("sub_domain");
    reveal_strlit("aliyun");
    reveal_strlit("cloudflare");
    reveal_strlit("dnspod");
    reveal_strlit("godaddy");
    reveal_strlit("namecheap");
    reveal_strlit("access_key_id");
    reveal_strlit("access_key_secret");
    reveal_strlit("token");
    reveal_strlit("login_token");
    reveal_strlit("key");
    reveal_strlit("secret");
    reveal_strlit("api_user");
    reveal_strlit("api_key");
    reveal_strlit(",");
    reveal_with_fuel(member_index, 5);
    let head = seq![("zone_name"@, FieldView::Text(domain)), ("sub_domain"@, FieldView::Text(sub))];
    let m = head + spec_provider_fields(provider, k1, k2);
    assert(spec_build_provider_config(provider, k1, k2, domain, sub) == ConfigView::Object(m));
    if provider == "aliyun"@ {
        assert(m =~= seq![head[0], head[1], ("access_key_id"@, FieldView::Text(k1)), ("access_key_secret"@, FieldView::Text(k2))]);
        assert(m.drop_last() =~= seq![head[0], head[1], ("access_key_id"@, FieldView::Text(k1))]);
        assert("access_key_secret"@.len() != "access_key_id"@.len());
        assert(member_index(m, "access_key_id"@) == 2);
        assert(member_index(m, "access_key_secret"@) == 3);
        assert(text_or_empty(ConfigView::Object(m), "access_key_id"@) == k1);
        assert(text_or_empty(ConfigView::Object(m), "access_key_secret"@) == k2);
    } else if provider == "cloudflare"@ {
        assert(m =~= seq![head[0], head[1], ("token"@, FieldView::Text(k1))]);
        assert(member_index(m, "token"@) == 2);
        assert(text_or_empty(ConfigView::Object(m), "token"@) == k1);
        assert(provider != "aliyun"@);
        assert(provider.len() != "dnspod"@.len());
        assert(provider.len() != "godaddy"@.len());
        assert(provider.len() != "namecheap"@.len());
        assert(spec_extract_provider_config(provider, ConfigView::Object(m)) == (k1, Seq::<char>::empty()));
        assert(spec_keys_read_back(provider, k1, k2) == (k1, Seq::<char>::empty()));
        assert(spec_extract_provider_config(provider, spec_build_provider_config(provider, k1, k2, domain, sub)) == spec_keys_read_back(provider, k1, k2));
    } else if provider == "dnspod"@ {
        let t = k1 + ","@ + k2;
        assert(m =~= seq![head[0], head[1], ("login_token"@, FieldView::Text(t))]);
        assert(member_index(m, "login_token"@) == 2);
        let b = ","@ + k2;
        assert(t =~= k1 + b);
        assert(first_index_of(b, ',') == 0);
        lemma_first_index_after(k1, b, ',');
        assert(t.take(k1.len() as int) =~= k1);
        assert(t.skip(k1.len() as int + 1) =~= k2);
        assert(spec_extract_provider_config(provider, spec_build_provider_config(provider, k1, k2, domain, sub)) == spec_keys_read_back(provider, k1, k2));
    } else if provider == "godaddy"@ {
        assert(m =~= seq![head[0], head[1], ("key"@, FieldView::Text(k1)), ("secret"@, FieldView::Text(k2))]);
        assert(m.drop_last() =~= seq![head[0], head[1], ("key"@, FieldView::Text(k1))]);
        assert("secret"@.len() != "key"@.len());
        assert(member_index(m, "key"@) == 2);
        assert(member_index(m, "secret"@) == 3);
        assert(spec_extract_provider_config(provider, spec_build_provider_config(provider, k1, k2, domain, sub)) == spec_keys_read_back(provider, k1, k2));
    } else if provider == "namecheap"@ {
        assert(m =~= seq![head[0], head[1], ("api_user"@, FieldView::Text(k1)), ("api_key"@, FieldView::Text(k2))]);
        assert(m.drop_last() =~= seq![head[0], head[1], ("api_user"@, FieldView::Text(k1))]);
        assert("api_key"@.len() != "api_user"@.len());
        assert(member_index(m, "api_user"@) == 2);
        assert(member_index(m, "api_key"@) == 3);
        assert(spec_extract_provider_config(provider, spec_build_provider_config(provider, k1, k2, domain, sub)) == spec_keys_read_back(provider, k1, k2));
    } else {
        assert(spec_extract_provider_config(provider, spec_build_provider_config(provider, k1, k2, domain, sub)) == spec_keys_read_back(provider, k1, k2));
    }
}

/// The position of the first profile with the id `id`, or -1.
pub open spec fn spec_profile_index(ps: Seq<DdnsProfile>, id: Seq<char>) -> int
    decreases ps.len(),
{
    if ps.len() == 0 {
        -1
    } else if ps[0].id@ == id {
        0
    } else {
        let i = spec_profile_index(ps.drop_first(), id);
        if i < 0 { -1 } else { i + 1 }
    }
}

pub proof fn lemma_profile_index(ps: Seq<DdnsProfile>, id: Seq<char>)
    ensures
        -1 <= spec_profile_index(ps, id) < ps.len(),
        spec_profile_index(ps, id) >= 0 ==> ps[spec_profile_index(ps, id)].id@ == id,
        forall|k: int| 0 <= k < ps.len() && (spec_profile_index(ps, id) < 0 || k < spec_profile_index(ps, id)) ==> ps[k].id@ != id,
    decreases ps.len(),
{
    if ps.len() > 0 && ps[0].id@ != id {
        lemma_profile_index(ps.drop_first(), id);
        assert forall|k: int| 0 <= k < ps.len() && (spec_profile_index(ps, id) < 0 || k < spec_profile_index(ps, id)) implies ps[k].id@ != id by {
            if k > 0 {
                assert(ps.drop_first()[k - 1] == ps[k]);
            }
        }
    }
}

/// The position of the first profile with the id `id`.
pub fn find_profile(ps: &Vec<DdnsProfile>, id: &str) -> (r: Option<usize>)
    ensures
        r matches Some(i) ==> i as int == spec_profile_index(ps@, id@),
        r is None ==> spec_profile_index(ps@, id@) < 0,
{
    let mut i: usize = 0;
    while i < ps.len()
        invariant
            i <= ps.len(),
            forall|k: int| 0 <= k < i ==> ps@[k].id@ != id@,
        decreases ps.len() - i,
    {
        if str_eq(ps[i].id.as_str(), id) {
            proof {
                lemma_profile_index(ps@, id@);
                let f = spec_profile_index(ps@, id@);
                if f >= 0 && f < i {
                    assert(ps@[f].id@ != id@);
                }
            }
            return Some(i);
        }
        i = i + 1;
    }
    proof {
        lemma_profile_index(ps@, id@);
        let f = spec_profile_index(ps@, id@);
        if f >= 0 {
            assert(ps@[f].id@ != id@);
        }
    }
    None
}

/// The profiles after saving `profile`: it takes the place of the first
/// profile with its id, or comes last when no profile has that id.
pub open spec fn spec_upsert(ps: Seq<DdnsProfile>, profile: DdnsProfile) -> Seq<DdnsProfile> {
    let i = spec_profile_index(ps, profile.id@);
    if i >= 0 { ps.update(i, profile) } else { ps.push(profile) }
}

/// Saves a profile: it replaces the first profile with its id, or is
/// appended when no profile has that id.
pub fn upsert_profile(profiles: &mut Vec<DdnsProfile>, profile: DdnsProfile)
    ensures
        final(profiles)@ == spec_upsert(old(profiles)@, profile),
{
    proof { lemma_profile_index(profiles@, profile.id@); }
    match find_profile(profiles, profile.id.as_str()) {
        Some(i) => {
            profiles.set(i, profile);
        },
        None => {
            profiles.push(profile);
        },
    }
}

/// A profile whose id is not `id`.
pub open spec fn other_than(id: Seq<char>) -> spec_fn(DdnsProfile) -> bool {
    |p: DdnsProfile| p.id@ != id
}

/// The profiles without those with the id `id`.
pub open spec fn spec_without_profile(ps: Seq<DdnsProfile>, id: Seq<char>) -> Seq<DdnsProfile> {
    ps.filter(other_than(id))
}

/// Removes the profile in row `idx` (the one whose Delete was clicked),
/// keeping the others in order, and gives it back so its secret can be
/// deleted. Other profiles that share its id stay.
pub fn remove_profile_at(profiles: &mut Vec<DdnsProfile>, idx: usize) -> (r: DdnsProfile)
    requires
        idx < old(profiles)@.len(),
    ensures
        r == old(profiles)@[idx as int],
        final(profiles)@ == old(profiles)@.remove(idx as int),
{
    profiles.remove(idx)
}

/// Removes every profile with the id `id` (the delete command of the
/// service, which deletes by id), keeping the others in order; reports
/// whether any was removed.
pub fn remove_profile(profiles: &mut Vec<DdnsProfile>, id: &str) -> (r: bool)
    ensures
        final(profiles)@ == spec_without_profile(old(profiles)@, id@),
        r == (final(profiles)@.len() < old(profiles)@.len()),
{
    let ghost ps0 = profiles@;
    let mut kept: Vec<DdnsProfile> = Vec::new();
    let n = profiles.len();
    let mut removed = false;
    assert(ps0.take(0).filter(other_than(id@)) =~= Seq::<DdnsProfile>::empty());
    while profiles.len() > 0
        invariant
            profiles@.len() + kept@.len() <= n,
            n == ps0.len(),
            ps0 == ps0.take(n - profiles@.len()) + profiles@,
            kept@ == ps0.take(n - profiles@.len()).filter(other_than(id@)),
            removed == (kept@.len() < n - profiles@.len()),
        decreases profiles.len(),
    {
        let ghost before = profiles@;
        let ghost done = n - profiles@.len();
        let p = profiles.remove(0);
        proof {
            assert(ps0[done] == p) by {
                assert((ps0.take(done) + before)[done] == before[0]);
            }
            assert(ps0.take(done + 1) =~= ps0.take(done).push(p));
            assert(ps0 =~= ps0.take(done + 1) + profiles@) by {
                assert(before =~= seq![p] + profiles@);
            }
            assert(ps0.take(done + 1).drop_last() =~= ps0.take(done));
        }
        if str_eq(p.id.as_str(), id) {
            removed = true;
        } else {
            kept.push(p);
        }
        proof {
            reveal(Seq::filter);
            ps0.take(done).lemma_filter_len(other_than(id@));
        }
    }
    *profiles = kept;
    proof {
        assert(ps0.take(n as int) =~= ps0);
    }
    removed
}

/// Turns the first profile with the id `id` on or off; reports whether there
/// was one.
pub fn set_profile_enabled(profiles: &mut Vec<DdnsProfile>, id: &str, enabled: bool) -> (r: bool)
    ensures
        r == (spec_profile_index(old(profiles)@, id@) >= 0),
        !r ==> final(profiles)@ == old(profiles)@,
        r ==> final(profiles)@ == old(profiles)@.update(spec_profile_index(old(profiles)@, id@),
            DdnsProfile { enabled, ..old(profiles)@[spec_profile_index(old(profiles)@, id@)] }),
{
    proof { lemma_profile_index(profiles@, id@); }
    match find_profile(profiles, id) {
        Some(i) => {
            let mut p = profiles.remove(i);
            p.enabled = enabled;
            profiles.insert(i, p);
            true
        },
        None => false,
    }
}

/// A saved profile is the one found under its id afterwards, and the other
/// profiles are kept.
pub proof fn law_saved_profile_is_found(ps: Seq<DdnsProfile>, profile: DdnsProfile)
    ensures
        ({
            let after = spec_upsert(ps, profile);
            &&& spec_profile_index(after, profile.id@) >= 0
            &&& after[spec_profile_index(after, profile.id@)] == profile
            &&& forall|k: int| 0 <= k < ps.len() && ps[k].id@ != profile.id@ ==> after[k] == ps[k]
        }),
{
    lemma_profile_index(ps, profile.id@);
    let after = spec_upsert(ps, profile);
    lemma_profile_index(after, profile.id@);
    let i = spec_profile_index(ps, profile.id@);
    let j = spec_profile_index(after, profile.id@);
    if i >= 0 {
        if j < 0 || j > i {
            assert(after[i].id@ == profile.id@);
        }
        if 0 <= j < i {
            assert(after[j] == ps[j]);
        }
    } else {
        if j < 0 || j > ps.len() as int {
            assert(after[ps.len() as int].id@ == profile.id@);
        }
        if 0 <= j < ps.len() {
            assert(after[j] == ps[j]);
        }
    }
}

/// After a profile is deleted no profile has its id, and the others are
/// kept in order.
pub proof fn law_deleted_profile_is_gone(ps: Seq<DdnsProfile>, id: Seq<char>)
    ensures
        spec_profile_index(spec_without_profile(ps, id), id) < 0,
        forall|p: DdnsProfile| p.id@ != id ==> (ps.contains(p) <==> spec_without_profile(ps, id).contains(p)),
{
    let after = spec_without_profile(ps, id);
    lemma_profile_index(after, id);
    let j = spec_profile_index(after, id);
    if j >= 0 {
        ps.lemma_filter_pred(other_than(id), j);
    }
    assert forall|p: DdnsProfile| p.id@ != id implies (ps.contains(p) <==> after.contains(p)) by {
        if ps.contains(p) {
            let k = choose|k: int| 0 <= k < ps.len() && ps[k] == p;
            assert(other_than(id)(ps[k]));
            ps.lemma_filter_contains(other_than(id), k);
        }
        if after.contains(p) {
            ps.lemma_filter_contains_rev(other_than(id), p);
        }
    }
}

/// The inputs of the profile editor.
#[derive(Debug)]
pub struct ProfileEdit {
    /// The profile being edited; empty for a new profile.
    pub id: String,
    pub name: String,
    pub provider: String,
    pub domain: String,
    pub subdomain: String,
    pub key1: String,
    pub key2: String,
    pub ipv4: bool,
    pub ipv6: bool,
}

/// `after` is `p` edited: named, typed, addressed and configured from the
/// inputs, with the families chosen there; its id and on/off state kept.
pub open spec fn spec_edited(p: DdnsProfile, e: ProfileEdit, after: DdnsProfile) -> bool {
    &&& after.id@ == p.id@
    &&& after.name@ == e.name@
    &&& after.provider_type@ == e.provider@
    &&& after.domain@ == e.domain@
    &&& after.enable_ipv4 == e.ipv4
    &&& after.enable_ipv6 == e.ipv6
    &&& after.enabled == p.enabled
    &&& after.provider_config@ == spec_build_provider_config(e.provider@, e.key1@, e.key2@, e.domain@, e.subdomain@)
}

fn edited(p: DdnsProfile, e: &ProfileEdit, config: ConfigValue) -> (r: DdnsProfile)
    requires
        config@ == spec_build_provider_config(e.provider@, e.key1@, e.key2@, e.domain@, e.subdomain@),
    ensures
        spec_edited(p, *e, r),
{
    DdnsProfile {
        id: p.id,
        name: e.name.clone(),
        provider_type: e.provider.clone(),
        domain: e.domain.clone(),
        enable_ipv4: e.ipv4,
        enable_ipv6: e.ipv6,
        enabled: p.enabled,
        provider_config: config,
    }
}

/// Saves what the profile editor holds, giving a new profile the id
/// `new_id`: with no id a new enabled profile is added last; otherwise the
/// first profile with the id is edited; an id no profile has changes nothing.
pub fn save_profile_edit_with_id(profiles: &mut Vec<DdnsProfile>, e: &ProfileEdit, new_id: String)
    ensures
        e.id@.len() == 0 ==> {
            &&& final(profiles)@.len() == old(profiles)@.len() + 1
            &&& final(profiles)@.take(old(profiles)@.len() as int) == old(profiles)@
            &&& spec_edited(DdnsProfile { enabled: true, ..final(profiles)@.last() }, *e, final(profiles)@.last())
            &&& final(profiles)@.last().id@ == new_id@
            &&& final(profiles)@.last().enabled
        },
        e.id@.len() > 0 && spec_profile_index(old(profiles)@, e.id@) < 0 ==> final(profiles)@ == old(profiles)@,
        e.id@.len() > 0 && spec_profile_index(old(profiles)@, e.id@) >= 0 ==> {
            let i = spec_profile_index(old(profiles)@, e.id@);
            &&& final(profiles)@.len() == old(profiles)@.len()
            &&& forall|j: int| 0 <= j < final(profiles)@.len() && j != i ==> final(profiles)@[j] == old(profiles)@[j]
            &&& spec_edited(old(profiles)@[i], *e, final(profiles)@[i])
        },
{
    let config = build_provider_config(e.provider.as_str(), e.key1.as_str(), e.key2.as_str(), e.domain.as_str(), e.subdomain.as_str());
    if e.id.as_str().unicode_len() == 0 {
        let fresh = DdnsProfile {
            id: new_id,
            name: e.name.clone(),
            provider_type: e.provider.clone(),
            domain: e.domain.clone(),
            enable_ipv4: e.ipv4,
            enable_ipv6: e.ipv6,
            enabled: true,
            provider_config: config,
        };
        let ghost before = profiles@;
        profiles.push(fresh);
        assert(profiles@.take(before.len() as int) =~= before);
    } else {
        proof { lemma_profile_index(profiles@, e.id@); }
        match find_profile(profiles, e.id.as_str()) {
            Some(i) => {
                let p = profiles.remove(i);
                let q = edited(p, e, config);
                profiles.insert(i, q);
            },
            None => {},
        }
    }
}

/// Saves what the profile editor holds; a new profile gets a fresh random id.
pub fn save_profile_edit(profiles: &mut Vec<DdnsProfile>, e: &ProfileEdit)
    ensures
        e.id@.len() == 0 ==> {
            &&& final(profiles)@.len() == old(profiles)@.len() + 1
            &&& final(profiles)@.take(old(profiles)@.len() as int) == old(profiles)@
            &&& spec_edited(DdnsProfile { enabled: true, ..final(profiles)@.last() }, *e, final(profiles)@.last())
            &&& final(profiles)@.last().enabled
        },
        e.id@.len() > 0 && spec_profile_index(old(profiles)@, e.id@) < 0 ==> final(profiles)@ == old(profiles)@,
        e.id@.len() > 0 && spec_profile_index(old(profiles)@, e.id@) >= 0 ==> {
            let i = spec_profile_index(old(profiles)@, e.id@);
            &&& final(profiles)@.len() == old(profiles)@.len()
            &&& forall|j: int| 0 <= j < final(profiles)@.len() && j != i ==> final(profiles)@[j] == old(profiles)@[j]
            &&& spec_edited(old(profiles)@[i], *e, final(profiles)@[i])
        },
{
    let new_id = if e.id.as_str().unicode_len() == 0 { new_uuid() } else { String::new() };
    save_profile_edit_with_id(profiles, e, new_id);
}

/// The settings of a generic HTTP profile from the editor's inputs: the URL
/// template and the method, the body template when it is not empty, and the
/// headers when the editor's header text was read as JSON.
pub open spec fn spec_generic_provider_config(url: Seq<char>, method: Seq<char>, body: Seq<char>, headers: Option<FieldView>) -> ConfigView {
    let base = seq![("url"@, FieldView::Text(url)), ("method"@, FieldView::Text(method))];
    let with_body = if body.len() > 0 { base.push(("body"@, FieldView::Text(body))) } else { base };
    ConfigView::Object(match headers {
        Some(h) => with_body.push(("headers"@, h)),
        None => with_body,
    })
}

/// Builds the settings of a generic HTTP profile from the editor's inputs.
pub fn generic_provider_config(url: &str, method: &str, body: &str, headers: Option<JsonField>) -> (r: ConfigValue)
    ensures
        r@ == spec_generic_provider_config(url@, method@, body@, match headers { Some(h) => Some(h@), None => None }),
{
    let mut m: Vec<(String, JsonField)> = Vec::new();
    m.push((owned("url"), JsonField::Text(owned(url))));
    m.push((owned("method"), JsonField::Text(owned(method))));
    let ghost base = seq![("url"@, FieldView::Text(url@)), ("method"@, FieldView::Text(method@))];
    assert(mview(m@) =~= base);
    if body.unicode_len() > 0 {
        let ghost before = m@;
        m.push((owned("body"), JsonField::Text(owned(body))));
        assert(mview(m@) =~= mview(before).push(("body"@, FieldView::Text(body@))));
    }
    let ghost with_body = mview(m@);
    match headers {
        Some(h) => {
            let ghost hv = h@;
            m.push((owned("headers"), h));
            assert(mview(m@) =~= with_body.push(("headers"@, hv)));
        },
        None => {},
    }
    ConfigValue::Object(m)
}

/// What the editor leaves of a Cloudflare profile and the secrets when it
/// saves a token: no token, nothing changes; otherwise the token is encrypted
/// and stored under the profile's id, and the settings never hold it: any
/// `api_token` setting is taken out, whether the token could be stored or not.
pub fn store_editor_token(vault: &crate::vault::StorageManager, secrets: &mut Vec<(String, String)>, profile: &mut DdnsProfile, token: &str) -> (r: Result<(), StorageError>)
    requires
        secrets_wf(old(secrets)@),
        old(profile).provider_config@.well_formed(),
        encode_utf8(token@).len() <= usize::MAX / 2,
    ensures
        secrets_wf(final(secrets)@),
        final(profile).same_but_config(*old(profile)),
        final(profile).provider_config@.well_formed(),
        token@.len() == 0 ==> r is Ok && final(secrets)@ == old(secrets)@ && final(profile).provider_config@ == old(profile).provider_config@,
        token@.len() > 0 ==> (r is Ok <==> encode_utf8(token@).len() <= 0x10_0000_0000),
        token@.len() > 0 ==> final(profile).provider_config@.member("api_token"@) is None,
        token@.len() > 0 ==> forall|k: Seq<char>| k != "api_token"@ ==> final(profile).provider_config@.member(k) == old(profile).provider_config@.member(k),
        token@.len() > 0 && r is Ok ==> {
            &&& exists|n: Seq<u8>| n.len() == 12 && spec_sealed(vault.key(), n, token@) == member_lookup(mview(final(secrets)@), old(profile).id@)
            &&& forall|k: Seq<char>| k != old(profile).id@ ==> member_lookup(mview(final(secrets)@), k) == member_lookup(mview(old(secrets)@), k)
        },
        token@.len() > 0 && r is Err ==> final(secrets)@ == old(secrets)@,
{
    if token.unicode_len() == 0 {
        return Ok(());
    }
    let r = vault.save_secret(secrets, profile.id.as_str(), token);
    let _ = profile.provider_config.remove("api_token");
    r
}

/// Replaces the first profile with the id of `profile`; reports whether
/// there was one (nothing changes otherwise).
pub fn replace_profile(profiles: &mut Vec<DdnsProfile>, profile: DdnsProfile) -> (r: bool)
    ensures
        r == (spec_profile_index(old(profiles)@, profile.id@) >= 0),
        r ==> final(profiles)@ == old(profiles)@.update(spec_profile_index(old(profiles)@, profile.id@), profile),
        !r ==> final(profiles)@ == old(profiles)@,
{
    proof { lemma_profile_index(profiles@, profile.id@); }
    match find_profile(profiles, profile.id.as_str()) {
        Some(i) => {
            profiles.set(i, profile);
            true
        },
        None => false,
    }
}

} // verus!
