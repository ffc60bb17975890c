//! Where a public address comes from, and what makes an answer acceptable.

use vstd::prelude::*;
use crate::models::{IpAddress, IpVersion};
use crate::network::{is_unicast_global, lemma_str_lt_total, lemma_str_lt_trans, spec_is_loopback6, spec_is_unicast_global, spec_str_lt, str_lt};
use crate::text::{owned, str_eq, to_chars};

verus! {

/// Why no address was found.
#[derive(Debug, Clone)]
pub enum ResolverError {
    /// The probe could not be fetched; the transport's message.
    Network(String),
    /// The probe's answer is not an address; the parser's message.
    Parse(String),
    VersionMismatch,
    NoLocalAddress,
}

/// The message of a resolver error.
pub open spec fn spec_resolver_message(e: ResolverError) -> Seq<char> {
    match e {
        ResolverError::Network(m) => "Network error: "@ + m@,
        ResolverError::Parse(m) => "Parse error: "@ + m@,
        ResolverError::VersionMismatch => "Invalid IP version returned"@,
        ResolverError::NoLocalAddress => "No suitable local address found"@,
    }
}

impl ResolverError {
    /// The message of this error.
    pub fn message(&self) -> (r: String)
        ensures
            r@ == spec_resolver_message(*self),
    {
        match self {
            ResolverError::Network(m) => owned("Network error: ").concat(m.as_str()),
            ResolverError::Parse(m) => owned("Parse error: ").concat(m.as_str()),
            ResolverError::VersionMismatch => owned("Invalid IP version returned"),
            ResolverError::NoLocalAddress => owned("No suitable local address found"),
        }
    }

    /// A copy of this error.
    pub fn copy(&self) -> (r: ResolverError)
        ensures
            r == *self,
    {
        match self {
            ResolverError::Network(m) => ResolverError::Network(m.clone()),
            ResolverError::Parse(m) => ResolverError::Parse(m.clone()),
            ResolverError::VersionMismatch => ResolverError::VersionMismatch,
            ResolverError::NoLocalAddress => ResolverError::NoLocalAddress,
        }
    }
}

/// Where a probe source gets the address from.
#[derive(Debug)]
pub enum ProbeSource {
    /// `interface://NAME`: an address of the named network interface.
    Interface(String),
    /// `local://ipv4` or `local://ipv6`: the address the system would send from.
    Local,
    /// Any other text: a URL whose answer is the address.
    Remote(String),
}

/// The kind of a probe source text.
pub open spec fn spec_probe_source(url: Seq<char>) -> ProbeSourceView {
    let p = "interface://"@;
    if url.len() >= p.len() && url.take(p.len() as int) == p {
        ProbeSourceView::Interface(url.skip(p.len() as int))
    } else if url == "local://ipv4"@ || url == "local://ipv6"@ {
        ProbeSourceView::Local
    } else {
        ProbeSourceView::Remote(url)
    }
}

/// What a probe source holds.
pub enum ProbeSourceView {
    Interface(Seq<char>),
    Local,
    Remote(Seq<char>),
}

impl View for ProbeSource {
    type V = ProbeSourceView;

    open spec fn view(&self) -> ProbeSourceView {
        match self {
            ProbeSource::Interface(n) => ProbeSourceView::Interface(n@),
            ProbeSource::Local => ProbeSourceView::Local,
            ProbeSource::Remote(u) => ProbeSourceView::Remote(u@),
        }
    }
}

/// Tells which kind of source a probe URL names.
pub fn classify_source(url: &str) -> (r: ProbeSource)
    ensures
        r@ == spec_probe_source(url@),
{
    let n = url.unicode_len();
    let prefix = "interface://";
    let m = prefix.unicode_len();
    proof { reveal_strlit("interface://"); }
    if n >= m && str_eq(url.substring_char(0, m), prefix) {
        proof { assert(url@.subrange(0, m as int) == url@.take(m as int)); }
        return ProbeSource::Interface(owned(url.substring_char(m, n)));
    }
    proof {
        if n >= m {
            assert(url@.subrange(0, m as int) == url@.take(m as int));
        }
    }
    if str_eq(url, "local://ipv4") || str_eq(url, "local://ipv6") {
        ProbeSource::Local
    } else {
        ProbeSource::Remote(owned(url))
    }
}

/// An address of the expected family is accepted; any other is refused.
pub fn check_version(ip: IpAddress, expected: IpVersion) -> (r: Result<IpAddress, ResolverError>)
    ensures
        ip.version() == expected ==> r == Ok::<IpAddress, ResolverError>(ip),
        ip.version() != expected ==> r == Err::<IpAddress, ResolverError>(ResolverError::VersionMismatch),
{
    match (expected, ip) {
        (IpVersion::IPv4, IpAddress::V4(_)) => Ok(ip),
        (IpVersion::IPv6, IpAddress::V6(_)) => Ok(ip),
        _ => Err(ResolverError::VersionMismatch),
    }
}

/// ASCII letters in lower case; other characters unchanged.
pub open spec fn spec_ascii_lower(c: char) -> char {
    if 'A' <= c && c <= 'Z' { ((c as u32) + 32) as char } else { c }
}

/// Equal when ASCII letters are compared without regard to case.
pub open spec fn spec_eq_ignore_ascii_case(a: Seq<char>, b: Seq<char>) -> bool {
    a.len() == b.len() && forall|i: int| 0 <= i < a.len() ==> spec_ascii_lower(a[i]) == spec_ascii_lower(b[i])
}

fn ascii_lower(c: char) -> (r: char)
    ensures
        r == spec_ascii_lower(c),
{
    if 'A' <= c && c <= 'Z' {
        let v = ((c as u32) + 32) as u8;
        v as char
    } else {
        c
    }
}

/// Whether two names are equal when ASCII letters are compared without regard to case.
pub fn eq_ignore_ascii_case(a: &str, b: &str) -> (r: bool)
    ensures
        r == spec_eq_ignore_ascii_case(a@, b@),
{
    let x = to_chars(a);
    let y = to_chars(b);
    if x.len() != y.len() {
        return false;
    }
    let mut i: usize = 0;
    while i < x.len()
        invariant
            x@ == a@,
            y@ == b@,
            x.len() == y.len(),
            i <= x.len(),
            forall|k: int| 0 <= k < i ==> spec_ascii_lower(a@[k]) == spec_ascii_lower(b@[k]),
        decreases x.len() - i,
    {
        if ascii_lower(x[i]) != ascii_lower(y[i]) {
            return false;
        }
        i = i + 1;
    }
    true
}

/// A loopback address: `127.0.0.0/8` or `::1`.
pub open spec fn spec_is_loopback(ip: IpAddress) -> bool {
    match ip {
        IpAddress::V4(o) => o@[0] == 127u8,
        IpAddress::V6(s) => spec_is_loopback6(s@),
    }
}

/// Whether an address is a loopback address.
pub fn is_loopback(ip: &IpAddress) -> (r: bool)
    ensures
        r == spec_is_loopback(*ip),
{
    let r = match ip {
        IpAddress::V4(o) => o[0] == 127,
        IpAddress::V6(s) => s[0] == 0 && s[1] == 0 && s[2] == 0 && s[3] == 0 && s[4] == 0 && s[5] == 0 && s[6] == 0 && s[7] == 1,
    };
    proof {
        if let IpAddress::V6(s) = *ip {
            if r {
                assert(s@ =~= seq![0u16, 0u16, 0u16, 0u16, 0u16, 0u16, 0u16, 1u16]);
            } else if spec_is_loopback6(s@) {
                assert(s@[7] == 1u16);
            }
        }
    }
    r
}

/// The address an interface gives for a family: an IPv4 address, or a
/// global unicast IPv6 address.
pub open spec fn spec_interface_fits(ip: IpAddress, version: IpVersion) -> bool {
    match (version, ip) {
        (IpVersion::IPv4, IpAddress::V4(_)) => true,
        (IpVersion::IPv6, IpAddress::V6(s)) => spec_is_unicast_global(s@),
        _ => false,
    }
}

/// The entry of an interface list that answers for interface `name`.
pub open spec fn spec_interface_match(iface: (String, IpAddress), name: Seq<char>, version: IpVersion) -> bool {
    spec_eq_ignore_ascii_case(iface.0@, name) && !spec_is_loopback(iface.1) && spec_interface_fits(iface.1, version)
}

/// Of the interface addresses (each listed with its interface's name), the
/// first that belongs to interface `name` (names compared without regard to
/// ASCII case), is not loopback, and fits the family.
pub fn resolve_interface(ifaces: &Vec<(String, IpAddress)>, name: &str, version: IpVersion) -> (r: Result<IpAddress, ResolverError>)
    ensures
        r matches Ok(ip) ==> exists|i: int| 0 <= i < ifaces.len() && spec_interface_match(#[trigger] ifaces@[i], name@, version) && ifaces@[i].1 == ip
            && forall|j: int| 0 <= j < i ==> !spec_interface_match(#[trigger] ifaces@[j], name@, version),
        r is Err ==> r == Err::<IpAddress, ResolverError>(ResolverError::NoLocalAddress),
        r is Err <==> forall|i: int| 0 <= i < ifaces.len() ==> !spec_interface_match(#[trigger] ifaces@[i], name@, version),
{
    let mut i: usize = 0;
    while i < ifaces.len()
        invariant
            i <= ifaces.len(),
            forall|j: int| 0 <= j < i ==> !spec_interface_match(#[trigger] ifaces@[j], name@, version),
        decreases ifaces.len() - i,
    {
        let ip = ifaces[i].1;
        if eq_ignore_ascii_case(ifaces[i].0.as_str(), name) {
            if !is_loopback(&ip) {
                match (version, ip) {
                    (IpVersion::IPv4, IpAddress::V4(_)) => {
                        return Ok(ip);
                    },
                    (IpVersion::IPv6, IpAddress::V6(s)) => {
                        if is_unicast_global(&s) {
                            return Ok(ip);
                        }
                    },
                    _ => {},
                }
            }
        }
        i = i + 1;
    }
    Err(ResolverError::NoLocalAddress)
}

/// An interface as the settings page lists it: its name, whether it has an
/// IPv4 and an IPv6 address, and its first address.
#[derive(Debug)]
pub struct InterfaceGroup {
    pub name: String,
    pub has_v4: bool,
    pub has_v6: bool,
    pub first: IpAddress,
}

/// An entry of the interface list that belongs to interface `name` and is not loopback.
pub open spec fn spec_listed(e: (String, IpAddress), name: Seq<char>) -> bool {
    !spec_is_loopback(e.1) && e.0@ == name
}

/// The index of the first of the first `n` entries listed for `name`, or -1.
pub open spec fn spec_first_listed(ifaces: Seq<(String, IpAddress)>, n: int, name: Seq<char>) -> int
    decreases n,
{
    if n <= 0 {
        -1
    } else {
        let f = spec_first_listed(ifaces, n - 1, name);
        if f >= 0 { f } else if spec_listed(ifaces[n - 1], name) { n - 1 } else { -1 }
    }
}

/// One of the first `n` entries listed for `name` is an IPv4 address (`v4`)
/// or an IPv6 address (`!v4`).
pub open spec fn spec_has_family(ifaces: Seq<(String, IpAddress)>, n: int, name: Seq<char>, v4: bool) -> bool
    decreases n,
{
    if n <= 0 {
        false
    } else {
        spec_has_family(ifaces, n - 1, name, v4)
            || (spec_listed(ifaces[n - 1], name) && (ifaces[n - 1].1 is V4) == v4)
    }
}

/// `g` sums up interface `g.name` among the first `n` entries: its first
/// address and which families it has.
pub open spec fn spec_group_upto(ifaces: Seq<(String, IpAddress)>, n: int, g: InterfaceGroup) -> bool {
    let f = spec_first_listed(ifaces, n, g.name@);
    &&& 0 <= f < n
    &&& ifaces[f].1 == g.first
    &&& g.has_v4 == spec_has_family(ifaces, n, g.name@, true)
    &&& g.has_v6 == spec_has_family(ifaces, n, g.name@, false)
}

/// The groups sum up the first `n` entries: one per interface with a
/// non-loopback address, sorted by name.
pub open spec fn spec_groups_upto(ifaces: Seq<(String, IpAddress)>, n: int, gs: Seq<InterfaceGroup>) -> bool {
    &&& forall|i: int, j: int| 0 <= i < j < gs.len() ==> spec_str_lt(#[trigger] gs[i].name@, #[trigger] gs[j].name@)
    &&& forall|i: int| 0 <= i < gs.len() ==> spec_group_upto(ifaces, n, #[trigger] gs[i])
    &&& forall|k: int| 0 <= k < n && !spec_is_loopback(#[trigger] ifaces[k].1) ==>
        exists|i: int| 0 <= i < gs.len() && #[trigger] gs[i].name@ == ifaces[k].0@
}

proof fn lemma_first_listed(ifaces: Seq<(String, IpAddress)>, n: int, name: Seq<char>)
    requires
        0 <= n <= ifaces.len(),
    ensures
        -1 <= spec_first_listed(ifaces, n, name) < n,
        spec_first_listed(ifaces, n, name) >= 0 ==> spec_listed(ifaces[spec_first_listed(ifaces, n, name)], name),
        (forall|k: int| 0 <= k < n ==> !spec_listed(#[trigger] ifaces[k], name)) ==> {
            &&& spec_first_listed(ifaces, n, name) == -1
            &&& !spec_has_family(ifaces, n, name, true)
            &&& !spec_has_family(ifaces, n, name, false)
        },
    decreases n,
{
    if n > 0 {
        lemma_first_listed(ifaces, n - 1, name);
    }
}

/// The interfaces with a non-loopback address, sorted by name, each with
/// the families it has and its first address.
pub fn interface_groups(ifaces: &Vec<(String, IpAddress)>) -> (r: Vec<InterfaceGroup>)
    ensures
        spec_groups_upto(ifaces@, ifaces@.len() as int, r@),
{
    let mut groups: Vec<InterfaceGroup> = Vec::new();
    let mut n: usize = 0;
    while n < ifaces.len()
        invariant
            n <= ifaces.len(),
            spec_groups_upto(ifaces@, n as int, groups@),
        decreases ifaces.len() - n,
    {
        let ghost gs0 = groups@;
        let ip = ifaces[n].1;
        if !is_loopback(&ip) {
            let name = ifaces[n].0.as_str();
            let mut pos: usize = 0;
            while pos < groups.len() && str_lt(groups[pos].name.as_str(), name)
                invariant
                    groups@ == gs0,
                    pos <= groups.len(),
                    forall|i: int| 0 <= i < pos ==> spec_str_lt(#[trigger] gs0[i].name@, name@),
                decreases groups.len() - pos,
            {
                pos = pos + 1;
            }
            let is_v4 = match ip { IpAddress::V4(_) => true, IpAddress::V6(_) => false };
            if pos < groups.len() && str_eq(groups[pos].name.as_str(), name) {
                let g = InterfaceGroup {
                    name: groups[pos].name.clone(),
                    has_v4: groups[pos].has_v4 || is_v4,
                    has_v6: groups[pos].has_v6 || !is_v4,
                    first: groups[pos].first,
                };
                groups.set(pos, g);
                proof {
                    lemma_extend_found(ifaces@, n as int, gs0, pos as int, groups@);
                }
            } else {
                let g = InterfaceGroup { name: owned(name), has_v4: is_v4, has_v6: !is_v4, first: ip };
                groups.insert(pos, g);
                proof {
                    lemma_extend_new(ifaces@, n as int, gs0, pos as int, groups@);
                }
            }
        } else {
            proof {
                lemma_extend_loopback(ifaces@, n as int, gs0);
            }
        }
        n = n + 1;
    }
    groups
}

/// A group keeps summing up its interface when an entry of another name, or
/// a loopback one, comes.
proof fn lemma_group_unaffected(ifaces: Seq<(String, IpAddress)>, n: int, g: InterfaceGroup)
    requires
        0 <= n < ifaces.len(),
        spec_group_upto(ifaces, n, g),
        !spec_listed(ifaces[n], g.name@),
    ensures
        spec_group_upto(ifaces, n + 1, g),
{
}

proof fn lemma_extend_loopback(ifaces: Seq<(String, IpAddress)>, n: int, gs: Seq<InterfaceGroup>)
    requires
        0 <= n < ifaces.len(),
        spec_is_loopback(ifaces[n].1),
        spec_groups_upto(ifaces, n, gs),
    ensures
        spec_groups_upto(ifaces, n + 1, gs),
{
    assert forall|i: int| 0 <= i < gs.len() implies spec_group_upto(ifaces, n + 1, #[trigger] gs[i]) by {
        lemma_group_unaffected(ifaces, n, gs[i]);
    }
    assert forall|k: int| 0 <= k < n + 1 && !spec_is_loopback(#[trigger] ifaces[k].1) implies
        exists|i: int| 0 <= i < gs.len() && #[trigger] gs[i].name@ == ifaces[k].0@ by {
        assert(k < n);
    }
}

proof fn lemma_extend_found(ifaces: Seq<(String, IpAddress)>, n: int, gs: Seq<InterfaceGroup>, pos: int, after: Seq<InterfaceGroup>)
    requires
        0 <= n < ifaces.len(),
        !spec_is_loopback(ifaces[n].1),
        spec_groups_upto(ifaces, n, gs),
        0 <= pos < gs.len(),
        gs[pos].name@ == ifaces[n].0@,
        after.len() == gs.len(),
        forall|i: int| 0 <= i < gs.len() && i != pos ==> after[i] == gs[i],
        after[pos].name@ == gs[pos].name@,
        after[pos].first == gs[pos].first,
        after[pos].has_v4 == (gs[pos].has_v4 || ifaces[n].1 is V4),
        after[pos].has_v6 == (gs[pos].has_v6 || ifaces[n].1 is V6),
    ensures
        spec_groups_upto(ifaces, n + 1, after),
{
    assert forall|i: int, j: int| 0 <= i < j < after.len() implies spec_str_lt(#[trigger] after[i].name@, #[trigger] after[j].name@) by {
        assert(after[i].name@ == gs[i].name@);
        assert(after[j].name@ == gs[j].name@);
        assert(spec_str_lt(gs[i].name@, gs[j].name@));
    }
    assert forall|i: int| 0 <= i < after.len() implies spec_group_upto(ifaces, n + 1, #[trigger] after[i]) by {
        assert(spec_group_upto(ifaces, n, gs[i]));
        if i != pos {
            assert(gs[i].name@ != gs[pos].name@) by {
                lemma_str_lt_total(gs[i].name@, gs[i].name@);
                if i < pos {
                    assert(spec_str_lt(gs[i].name@, gs[pos].name@));
                } else {
                    assert(spec_str_lt(gs[pos].name@, gs[i].name@));
                }
            }
            assert(after[i] == gs[i]);
            lemma_group_unaffected(ifaces, n, gs[i]);
        }
    }
    assert forall|k: int| 0 <= k < n + 1 && !spec_is_loopback(#[trigger] ifaces[k].1) implies
        exists|i: int| 0 <= i < after.len() && #[trigger] after[i].name@ == ifaces[k].0@ by {
        if k < n {
            let i = choose|i: int| 0 <= i < gs.len() && #[trigger] gs[i].name@ == ifaces[k].0@;
            assert(after[i].name@ == gs[i].name@);
        } else {
            assert(after[pos].name@ == ifaces[k].0@);
        }
    }
}

proof fn lemma_extend_new(ifaces: Seq<(String, IpAddress)>, n: int, gs: Seq<InterfaceGroup>, pos: int, after: Seq<InterfaceGroup>)
    requires
        0 <= n < ifaces.len(),
        !spec_is_loopback(ifaces[n].1),
        spec_groups_upto(ifaces, n, gs),
        0 <= pos <= gs.len(),
        forall|i: int| 0 <= i < pos ==> spec_str_lt(#[trigger] gs[i].name@, ifaces[n].0@),
        pos < gs.len() ==> !spec_str_lt(gs[pos].name@, ifaces[n].0@) && gs[pos].name@ != ifaces[n].0@,
        after.len() == gs.len() + 1,
        forall|i: int| 0 <= i < pos ==> after[i] == gs[i],
        forall|i: int| pos < i < after.len() ==> after[i] == gs[i - 1],
        after[pos].name@ == ifaces[n].0@,
        after[pos].first == ifaces[n].1,
        after[pos].has_v4 == ifaces[n].1 is V4,
        after[pos].has_v6 == ifaces[n].1 is V6,
    ensures
        spec_groups_upto(ifaces, n + 1, after),
{
    let name = ifaces[n].0@;
    if pos < gs.len() {
        lemma_str_lt_total(gs[pos].name@, name);
    }
    assert forall|i: int| 0 <= i < gs.len() implies gs[i].name@ != name by {
        lemma_str_lt_total(gs[i].name@, gs[i].name@);
        if i < pos {
            assert(spec_str_lt(gs[i].name@, name));
        } else {
            assert(spec_str_lt(name, gs[pos].name@));
            if i > pos {
                assert(spec_str_lt(gs[pos].name@, gs[i].name@));
                lemma_str_lt_trans(name, gs[pos].name@, gs[i].name@);
            }
            lemma_str_lt_total(name, name);
        }
    }
    assert forall|k: int| 0 <= k < n implies !spec_listed(#[trigger] ifaces[k], name) by {
        if spec_listed(ifaces[k], name) {
            assert(!spec_is_loopback(ifaces[k].1));
            let i = choose|i: int| 0 <= i < gs.len() && #[trigger] gs[i].name@ == ifaces[k].0@;
            assert(gs[i].name@ != name);
        }
    }
    lemma_first_listed(ifaces, n, name);
    assert forall|i: int, j: int| 0 <= i < j < after.len() implies spec_str_lt(#[trigger] after[i].name@, #[trigger] after[j].name@) by {
        if i == pos {
            assert(after[j] == gs[j - 1]);
            assert(spec_str_lt(name, gs[pos].name@));
            if j - 1 > pos {
                assert(spec_str_lt(gs[pos].name@, gs[j - 1].name@));
                lemma_str_lt_trans(name, gs[pos].name@, gs[j - 1].name@);
            }
        } else if j == pos {
            assert(after[i] == gs[i]);
            assert(spec_str_lt(gs[i].name@, name));
        } else if j < pos {
            assert(after[i] == gs[i]);
            assert(after[j] == gs[j]);
            assert(spec_str_lt(gs[i].name@, gs[j].name@));
        } else if i > pos {
            assert(after[i] == gs[i - 1]);
            assert(after[j] == gs[j - 1]);
            assert(spec_str_lt(gs[i - 1].name@, gs[j - 1].name@));
        } else {
            assert(after[i] == gs[i]);
            assert(after[j] == gs[j - 1]);
            assert(spec_str_lt(gs[i].name@, gs[j - 1].name@));
        }
    }
    assert forall|i: int| 0 <= i < after.len() implies spec_group_upto(ifaces, n + 1, #[trigger] after[i]) by {
        if i != pos {
            let gi = if i < pos { i } else { i - 1 };
            assert(after[i] == gs[gi]);
            assert(spec_group_upto(ifaces, n, gs[gi]));
            assert(gs[gi].name@ != name);
            lemma_group_unaffected(ifaces, n, gs[gi]);
        }
    }
    assert forall|k: int| 0 <= k < n + 1 && !spec_is_loopback(#[trigger] ifaces[k].1) implies
        exists|i: int| 0 <= i < after.len() && #[trigger] after[i].name@ == ifaces[k].0@ by {
        if k < n {
            let i = choose|i: int| 0 <= i < gs.len() && #[trigger] gs[i].name@ == ifaces[k].0@;
            let ai = if i < pos { i } else { i + 1 };
            assert(after[ai] == gs[i]);
        } else {
            assert(after[pos].name@ == ifaces[k].0@);
        }
    }
}

} // verus!
