//! The data the client works on: address families, addresses, provider
//! configuration values and profiles.

use vstd::prelude::*;
use crate::text::{owned, str_eq};

verus! {

/// The address family a record or a probe is about.
#[derive(Debug, Clone, Copy, PartialEq, Eq, Structural)]
pub enum IpVersion {
    IPv4,
    IPv6,
}

/// An IP address: four octets, or eight 16-bit segments.
#[derive(Debug, Clone, Copy, PartialEq, Eq)]
pub enum IpAddress {
    V4([u8; 4]),
    V6([u16; 8]),
}

impl IpAddress {
    pub open spec fn version(self) -> IpVersion {
        match self {
            IpAddress::V4(_) => IpVersion::IPv4,
            IpAddress::V6(_) => IpVersion::IPv6,
        }
    }

    /// The family of this address.
    pub fn ip_version(&self) -> (r: IpVersion)
        ensures
            r == self.version(),
    {
        match self {
            IpAddress::V4(_) => IpVersion::IPv4,
            IpAddress::V6(_) => IpVersion::IPv6,
        }
    }
}

/// The members of an object, by their views.
pub open spec fn mview<V: View>(m: Seq<(String, V)>) -> Seq<(Seq<char>, V::V)> {
    m.map_values(|p: (String, V)| (p.0@, p.1@))
}

/// No key occurs twice among the members.
pub open spec fn keys_unique<W>(m: Seq<(Seq<char>, W)>) -> bool {
    forall|i: int, j: int| 0 <= i < j < m.len() ==> m[i].0 != m[j].0
}

/// The position of `key` among the members, or -1.
pub open spec fn member_index<W>(m: Seq<(Seq<char>, W)>, key: Seq<char>) -> int
    decreases m.len(),
{
    if m.len() == 0 {
        -1
    } else if m.last().0 == key {
        m.len() - 1
    } else {
        member_index(m.drop_last(), key)
    }
}

/// The value stored under `key` among the members.
pub open spec fn member_lookup<W>(m: Seq<(Seq<char>, W)>, key: Seq<char>) -> Option<W> {
    let i = member_index(m, key);
    if i >= 0 { Some(m[i].1) } else { None }
}

pub proof fn lemma_member_index<W>(m: Seq<(Seq<char>, W)>, key: Seq<char>)
    ensures
        -1 <= member_index(m, key) < m.len(),
        member_index(m, key) >= 0 ==> m[member_index(m, key)].0 == key,
        member_index(m, key) == -1 ==> forall|k: int| 0 <= k < m.len() ==> m[k].0 != key,
        keys_unique(m) ==> forall|k: int| 0 <= k < m.len() && m[k].0 == key ==> k == member_index(m, key),
    decreases m.len(),
{
    if m.len() > 0 && m.last().0 != key {
        lemma_member_index(m.drop_last(), key);
        assert forall|k: int| 0 <= k < m.len() - 1 implies m.drop_last()[k] == m[k] by {}
    }
}

pub proof fn lemma_member_lookup_push<W>(m: Seq<(Seq<char>, W)>, e: (Seq<char>, W), k: Seq<char>)
    ensures
        member_lookup(m.push(e), k) == if e.0 == k { Some(e.1) } else { member_lookup(m, k) },
{
    assert(m.push(e).drop_last() =~= m);
    lemma_member_index(m, k);
    if e.0 != k && member_index(m, k) >= 0 {
        assert(m.push(e)[member_index(m, k)] == m[member_index(m, k)]);
    }
}

/// The position of `key` among the members.
pub fn member_find<V: View>(m: &Vec<(String, V)>, key: &str) -> (r: Option<usize>)
    ensures
        r matches Some(i) ==> i as int == member_index(mview(m@), key@) && i < m.len(),
        r is None ==> member_index(mview(m@), key@) == -1,
{
    let mut i: usize = m.len();
    assert(mview(m@.take(i as int)) =~= mview(m@));
    while i > 0
        invariant
            i <= m.len(),
            member_index(mview(m@), key@) == member_index(mview(m@.take(i as int)), key@),
        decreases i,
    {
        assert(mview(m@.take(i as int)).drop_last() =~= mview(m@.take(i - 1)));
        if str_eq(m[i - 1].0.as_str(), key) {
            return Some(i - 1);
        }
        i = i - 1;
    }
    None
}

/// Sets the member `key` to `value`: in place when the key is present, at the end otherwise.
pub fn member_set<V: View>(m: &mut Vec<(String, V)>, key: &str, value: V)
    requires
        keys_unique(mview(old(m)@)),
    ensures
        keys_unique(mview(final(m)@)),
        member_lookup(mview(final(m)@), key@) == Some(value@),
        forall|k: Seq<char>| k != key@ ==> member_lookup(mview(final(m)@), k) == member_lookup(mview(old(m)@), k),
        member_lookup(mview(old(m)@), key@) is None ==> mview(final(m)@) == mview(old(m)@).push((key@, value@)),
{
    let ghost old_m = mview(m@);
    proof { lemma_member_index(old_m, key@); }
    match member_find(m, key) {
        Some(i) => {
            let k = m[i].0.clone();
            m.set(i, (k, value));
            proof {
                let new_m = mview(m@);
                assert(new_m =~= old_m.update(i as int, (key@, value@)));
                assert forall|k: Seq<char>| #[trigger] member_index(new_m, k) == member_index(old_m, k) by {
                    lemma_member_index(old_m, k);
                    lemma_member_index(new_m, k);
                    if member_index(new_m, k) != member_index(old_m, k) {
                        if member_index(old_m, k) >= 0 {
                            assert(new_m[member_index(old_m, k)].0 == k);
                        }
                        if member_index(new_m, k) >= 0 {
                            assert(old_m[member_index(new_m, k)].0 == k);
                        }
                    }
                }
                assert forall|k: Seq<char>| k != key@ implies member_lookup(new_m, k) == member_lookup(old_m, k) by {
                    lemma_member_index(old_m, k);
                }
                assert forall|a: int, b: int| 0 <= a < b < new_m.len() implies new_m[a].0 != new_m[b].0 by {
                    assert(new_m[a].0 == old_m[a].0);
                    assert(new_m[b].0 == old_m[b].0);
                }
            }
        },
        None => {
            m.push((owned(key), value));
            proof {
                let new_m = mview(m@);
                assert(new_m =~= old_m.push((key@, value@)));
                assert(new_m.drop_last() =~= old_m);
                assert forall|k: Seq<char>| k != key@ implies #[trigger] member_index(new_m, k) == member_index(old_m, k) by {}
                assert forall|k: Seq<char>| k != key@ implies member_lookup(new_m, k) == member_lookup(old_m, k) by {
                    lemma_member_index(old_m, k);
                }
            }
        },
    }
}

/// Removes and returns the member `key`.
pub fn member_remove<V: View>(m: &mut Vec<(String, V)>, key: &str) -> (r: Option<V>)
    requires
        keys_unique(mview(old(m)@)),
    ensures
        keys_unique(mview(final(m)@)),
        r is Some == member_lookup(mview(old(m)@), key@) is Some,
        r matches Some(v) ==> member_lookup(mview(old(m)@), key@) == Some(v@),
        member_lookup(mview(final(m)@), key@) is None,
        forall|k: Seq<char>| k != key@ ==> member_lookup(mview(final(m)@), k) == member_lookup(mview(old(m)@), k),
{
    let ghost old_m = mview(m@);
    proof { lemma_member_index(old_m, key@); }
    match member_find(m, key) {
        Some(i) => {
            let (_, v) = m.remove(i);
            proof {
                let new_m = mview(m@);
                assert(new_m =~= old_m.remove(i as int));
                assert forall|k: Seq<char>| k != key@ implies member_lookup(new_m, k) == member_lookup(old_m, k) by {
                    lemma_member_index(old_m, k);
                    lemma_member_index(new_m, k);
                    if member_index(old_m, k) >= 0 {
                        let p = member_index(old_m, k);
                        let q = if p < i { p } else { p - 1 };
                        assert(new_m[q] == old_m[p]);
                    }
                    if member_index(new_m, k) >= 0 {
                        let q = member_index(new_m, k);
                        let p = if q < i { q } else { q + 1 };
                        assert(new_m[q] == old_m[p]);
                    }
                }
                lemma_member_index(new_m, key@);
                if member_index(new_m, key@) >= 0 {
                    let q = member_index(new_m, key@);
                    let p = if q < i { q } else { q + 1 };
                    assert(new_m[q] == old_m[p]);
                }
                assert forall|a: int, b: int| 0 <= a < b < new_m.len() implies new_m[a].0 != new_m[b].0 by {
                    let pa = if a < i { a } else { a + 1 };
                    let pb = if b < i { b } else { b + 1 };
                    assert(new_m[a] == old_m[pa]);
                    assert(new_m[b] == old_m[pb]);
                }
            }
            Some(v)
        },
        None => None,
    }
}

/// What a leaf holds: a string, or the JSON text of another value.
pub enum LeafView {
    Text(Seq<char>),
    Other(Seq<char>),
}

/// What a configuration member holds.
pub enum FieldView {
    Text(Seq<char>),
    Object(Seq<(Seq<char>, LeafView)>),
    Other(Seq<char>),
}

/// What a provider configuration holds.
pub enum ConfigView {
    Object(Seq<(Seq<char>, FieldView)>),
    Other(Seq<char>),
}

/// A JSON value nested two levels down: a string, or any other JSON value
/// kept as its JSON text.
#[derive(Debug)]
pub enum JsonLeaf {
    Text(String),
    Other(String),
}

/// A member of a provider configuration: a string, an object whose members
/// are leaves, or any other JSON value kept as its JSON text.
#[derive(Debug)]
pub enum JsonField {
    Text(String),
    Object(Vec<(String, JsonLeaf)>),
    Other(String),
}

/// A provider configuration as the provider logic reads it: a JSON object
/// (its members in order, each key at most once), or any other JSON value
/// kept as its JSON text.
#[derive(Debug)]
pub enum ConfigValue {
    Object(Vec<(String, JsonField)>),
    Other(String),
}

impl View for JsonLeaf {
    type V = LeafView;

    open spec fn view(&self) -> LeafView {
        match self {
            JsonLeaf::Text(t) => LeafView::Text(t@),
            JsonLeaf::Other(t) => LeafView::Other(t@),
        }
    }
}

impl View for JsonField {
    type V = FieldView;

    open spec fn view(&self) -> FieldView {
        match self {
            JsonField::Text(t) => FieldView::Text(t@),
            JsonField::Object(m) => FieldView::Object(mview(m@)),
            JsonField::Other(t) => FieldView::Other(t@),
        }
    }
}

impl View for ConfigValue {
    type V = ConfigView;

    open spec fn view(&self) -> ConfigView {
        match self {
            ConfigValue::Object(m) => ConfigView::Object(mview(m@)),
            ConfigValue::Other(t) => ConfigView::Other(t@),
        }
    }
}

/// A copy of a list of leaf members.
pub fn copy_leaves(m: &Vec<(String, JsonLeaf)>) -> (r: Vec<(String, JsonLeaf)>)
    ensures
        mview(r@) == mview(m@),
{
    let mut out: Vec<(String, JsonLeaf)> = Vec::new();
    let mut i: usize = 0;
    while i < m.len()
        invariant
            i <= m.len(),
            mview(out@) == mview(m@.take(i as int)),
        decreases m.len() - i,
    {
        let v = m[i].1.clone();
        let k = m[i].0.clone();
        assert(v@ == m@[i as int].1@);
        let ghost before = out@;
        out.push((k, v));
        assert(out@ =~= before.push((k, v)));
        assert(mview(out@) =~= mview(before).push((k@, v@)));
        assert(m@.take(i + 1) =~= m@.take(i as int).push(m@[i as int]));
        assert(mview(m@.take(i + 1)) =~= mview(m@.take(i as int)).push((m@[i as int].0@, m@[i as int].1@)));
        i = i + 1;
    }
    assert(m@.take(m.len() as int) =~= m@);
    out
}

/// A copy of a list of field members.
pub fn copy_fields(m: &Vec<(String, JsonField)>) -> (r: Vec<(String, JsonField)>)
    ensures
        mview(r@) == mview(m@),
{
    let mut out: Vec<(String, JsonField)> = Vec::new();
    let mut i: usize = 0;
    while i < m.len()
        invariant
            i <= m.len(),
            mview(out@) == mview(m@.take(i as int)),
        decreases m.len() - i,
    {
        let v = m[i].1.clone();
        let k = m[i].0.clone();
        assert(v@ == m@[i as int].1@);
        let ghost before = out@;
        out.push((k, v));
        assert(out@ =~= before.push((k, v)));
        assert(mview(out@) =~= mview(before).push((k@, v@)));
        assert(m@.take(i + 1) =~= m@.take(i as int).push(m@[i as int]));
        assert(mview(m@.take(i + 1)) =~= mview(m@.take(i as int)).push((m@[i as int].0@, m@[i as int].1@)));
        i = i + 1;
    }
    assert(m@.take(m.len() as int) =~= m@);
    out
}

impl Clone for JsonLeaf {
    fn clone(&self) -> (r: Self)
        ensures
            r@ == self@,
    {
        match self {
            JsonLeaf::Text(t) => JsonLeaf::Text(t.clone()),
            JsonLeaf::Other(t) => JsonLeaf::Other(t.clone()),
        }
    }
}

impl Clone for JsonField {
    fn clone(&self) -> (r: Self)
        ensures
            r@ == self@,
    {
        match self {
            JsonField::Text(t) => JsonField::Text(t.clone()),
            JsonField::Other(t) => JsonField::Other(t.clone()),
            JsonField::Object(m) => JsonField::Object(copy_leaves(m)),
        }
    }
}

impl Clone for ConfigValue {
    fn clone(&self) -> (r: Self)
        ensures
            r@ == self@,
    {
        match self {
            ConfigValue::Other(t) => ConfigValue::Other(t.clone()),
            ConfigValue::Object(m) => ConfigValue::Object(copy_fields(m)),
        }
    }
}

impl ConfigView {
    /// When an object, its keys are unique.
    pub open spec fn well_formed(self) -> bool {
        match self {
            ConfigView::Object(m) => keys_unique(m),
            _ => true,
        }
    }

    /// The member stored under `key`, when this value is an object that has one.
    pub open spec fn member(self, key: Seq<char>) -> Option<FieldView> {
        match self {
            ConfigView::Object(m) => member_lookup(m, key),
            _ => None,
        }
    }

    /// The string stored under `key`, when there is one.
    pub open spec fn text(self, key: Seq<char>) -> Option<Seq<char>> {
        match self.member(key) {
            Some(FieldView::Text(t)) => Some(t),
            _ => None,
        }
    }
}

/// An object with the member `(key, value)` added last; any other value as it is.
pub open spec fn spec_with_member(c: ConfigView, key: Seq<char>, value: FieldView) -> ConfigView {
    match c {
        ConfigView::Object(m) => ConfigView::Object(m.push((key, value))),
        other => other,
    }
}

impl ConfigValue {
    /// An empty object.
    pub fn empty_object() -> (r: ConfigValue)
        ensures
            r@ == ConfigView::Object(Seq::empty()),
    {
        let r = ConfigValue::Object(Vec::new());
        assert(mview(Seq::<(String, JsonField)>::empty()) =~= Seq::empty());
        r
    }

    /// Whether this value is an object with a member under `key`.
    pub fn contains_key(&self, key: &str) -> (r: bool)
        ensures
            r == self@.member(key@) is Some,
    {
        match self {
            ConfigValue::Object(m) => member_find(m, key).is_some(),
            _ => false,
        }
    }

    /// The member stored under `key`.
    pub fn get(&self, key: &str) -> (r: Option<&JsonField>)
        ensures
            r is Some == self@.member(key@) is Some,
            r matches Some(v) ==> self@.member(key@) == Some(v@),
    {
        match self {
            ConfigValue::Object(m) => match member_find(m, key) {
                Some(i) => Some(&m[i].1),
                None => None,
            },
            _ => None,
        }
    }

    /// The string stored under `key`, when the member is a string.
    pub fn get_text(&self, key: &str) -> (r: Option<String>)
        ensures
            r is Some == self@.text(key@) is Some,
            r matches Some(t) ==> self@.text(key@) == Some(t@),
    {
        match self.get(key) {
            Some(JsonField::Text(t)) => Some(t.clone()),
            _ => None,
        }
    }

    /// On an object, sets the member `key` to the string `value`; any other
    /// value is left unchanged.
    pub fn insert_text(&mut self, key: &str, value: String)
        requires
            old(self)@.well_formed(),
        ensures
            final(self)@.well_formed(),
            old(self)@ is Object <==> final(self)@ is Object,
            old(self)@ is Object ==> final(self)@.member(key@) == Some(FieldView::Text(value@)),
            old(self)@ is Object ==> forall|k: Seq<char>| k != key@ ==> final(self)@.member(k) == old(self)@.member(k),
            old(self)@.member(key@) is None ==> final(self)@ == spec_with_member(old(self)@, key@, FieldView::Text(value@)),
            !(old(self)@ is Object) ==> final(self)@ == old(self)@,
    {
        match self {
            ConfigValue::Object(m) => member_set(m, key, JsonField::Text(value)),
            _ => {},
        }
    }

    /// On an object, removes and returns the member `key`.
    pub fn remove(&mut self, key: &str) -> (r: Option<JsonField>)
        requires
            old(self)@.well_formed(),
        ensures
            final(self)@.well_formed(),
            r is Some == old(self)@.member(key@) is Some,
            r matches Some(v) ==> old(self)@.member(key@) == Some(v@),
            old(self)@ is Object <==> final(self)@ is Object,
            final(self)@.member(key@) is None,
            forall|k: Seq<char>| k != key@ ==> final(self)@.member(k) == old(self)@.member(k),
            !(old(self)@ is Object) ==> final(self)@ == old(self)@,
    {
        match self {
            ConfigValue::Object(m) => member_remove(m, key),
            _ => None,
        }
    }
}


/// A DNS record kept up to date: which provider updates which domain, for
/// which address families, with which provider settings.
#[derive(Debug)]
pub struct DdnsProfile {
    pub id: String,
    pub name: String,
    /// `cloudflare`, `aliyun`, `dnspod`, `godaddy`, `namecheap` or `generic`.
    pub provider_type: String,
    pub domain: String,
    pub enable_ipv4: bool,
    pub enable_ipv6: bool,
    pub enabled: bool,
    /// The provider's settings, a JSON object.
    pub provider_config: ConfigValue,
}

impl DdnsProfile {
    /// Every field but the provider settings is as in `other`.
    pub open spec fn same_but_config(self, other: DdnsProfile) -> bool {
        &&& self.id@ == other.id@
        &&& self.name@ == other.name@
        &&& self.provider_type@ == other.provider_type@
        &&& self.domain@ == other.domain@
        &&& self.enable_ipv4 == other.enable_ipv4
        &&& self.enable_ipv6 == other.enable_ipv6
        &&& self.enabled == other.enabled
    }

    /// A new profile with the given id: named `New Profile`, Cloudflare, no
    /// domain, IPv4 only, enabled, with empty settings.
    pub fn new_with_id(id: String) -> (r: DdnsProfile)
        ensures
            r.id@ == id@,
            r.name@ == "New Profile"@,
            r.provider_type@ == "cloudflare"@,
            r.domain@ == Seq::<char>::empty(),
            r.enable_ipv4,
            !r.enable_ipv6,
            r.enabled,
            r.provider_config@ == ConfigView::Object(Seq::empty()),
    {
        DdnsProfile {
            id,
            name: owned("New Profile"),
            provider_type: owned("cloudflare"),
            domain: String::new(),
            enable_ipv4: true,
            enable_ipv6: false,
            enabled: true,
            provider_config: ConfigValue::empty_object(),
        }
    }
}

/// A fresh random UUID in its hyphenated text form, by `uuid::Uuid::new_v4`.
/// Nothing is known of it.
#[verifier::external_body]
pub(crate) fn new_uuid() -> (r: String) {
    uuid::Uuid::new_v4().to_string()
}

impl Default for DdnsProfile {
    /// A new profile with a fresh random id: named `New Profile`, Cloudflare,
    /// no domain, IPv4 only, enabled, with empty settings.
    fn default() -> (r: Self)
        ensures
            r.name@ == "New Profile"@,
            r.provider_type@ == "cloudflare"@,
            r.domain@ == Seq::<char>::empty(),
            r.enable_ipv4,
            !r.enable_ipv6,
            r.enabled,
            r.provider_config@ == ConfigView::Object(Seq::empty()),
    {
        DdnsProfile::new_with_id(new_uuid())
    }
}

impl Clone for DdnsProfile {
    fn clone(&self) -> (r: Self)
        ensures
            r.same_but_config(*self),
            r.provider_config@ == self.provider_config@,
    {
        DdnsProfile {
            id: self.id.clone(),
            name: self.name.clone(),
            provider_type: self.provider_type.clone(),
            domain: self.domain.clone(),
            enable_ipv4: self.enable_ipv4,
            enable_ipv6: self.enable_ipv6,
            enabled: self.enabled,
            provider_config: self.provider_config.clone(),
        }
    }
}

/// The outcome of the last update of a profile.
#[derive(Debug, Clone)]
pub struct ProfileStatus {
    pub profile_id: String,
    /// When the update ran, in seconds since the Unix epoch.
    pub last_update: Option<i64>,
    pub current_ipv4: Option<String>,
    pub current_ipv6: Option<String>,
    pub status_message: String,
    pub is_running: bool,
}

/// What the scheduler reports while it runs.
#[derive(Debug, Clone)]
pub enum SchedulerEvent {
    Log(String),
    StatusUpdate(ProfileStatus),
}

} // verus!
