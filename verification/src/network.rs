//! Domain-name splitting and address classification.

use vstd::prelude::*;
use crate::models::IpAddress;
use crate::text::{find_last, last_index_of, lemma_last_index_of, owned, to_chars};

verus! {

/// The `(zone, sub-domain)` pair of a domain name: the zone is the text after
/// the second-to-last dot and the sub-domain the text before it; a name with
/// fewer than two dots is its own zone, with the sub-domain `@`.
pub open spec fn spec_domain_parts(d: Seq<char>) -> (Seq<char>, Seq<char>) {
    let i = last_index_of(d, '.');
    if i < 0 {
        (d, seq!['@'])
    } else {
        let j = last_index_of(d.take(i), '.');
        if j < 0 {
            (d, seq!['@'])
        } else {
            (d.skip(j + 1), d.take(j))
        }
    }
}

/// Parse a fully-qualified domain name into `(zone_name, sub_domain)`.
///
/// `"www.example.com"` gives `("example.com", "www")`, `"example.com"` gives
/// `("example.com", "@")` and `"sub.deep.example.com"` gives
/// `("example.com", "sub.deep")`.
pub fn parse_domain_parts(domain: &str) -> (r: (String, String))
    ensures
        (r.0@, r.1@) == spec_domain_parts(domain@),
{
    let chars = to_chars(domain);
    let n = chars.len();
    proof {
        assert(chars@.take(n as int) =~= domain@);
    }
    match find_last(&chars, '.', n) {
        None => {
            let at = owned("@");
            proof { reveal_strlit("@"); }
            (owned(domain), at)
        },
        Some(i) => {
            proof {
                lemma_last_index_of(domain@, '.');
                assert(chars@.take(i as int) =~= domain@.take(i as int));
            }
            match find_last(&chars, '.', i) {
                None => {
                    let at = owned("@");
                    proof { reveal_strlit("@"); }
                    (owned(domain), at)
                },
                Some(j) => {
                    proof {
                        lemma_last_index_of(domain@.take(i as int), '.');
                    }
                    let zone = owned(domain.substring_char(j + 1, n));
                    let sub = owned(domain.substring_char(0, j));
                    proof {
                        assert(zone@ =~= domain@.skip(j + 1));
                        assert(sub@ =~= domain@.take(j as int));
                    }
                    (zone, sub)
                },
            }
        },
    }
}


/// The IPv6 loopback address `::1`.
pub open spec fn spec_is_loopback6(seg: Seq<u16>) -> bool {
    seg == seq![0u16, 0u16, 0u16, 0u16, 0u16, 0u16, 0u16, 1u16]
}

/// A multicast address: its first byte is `0xff`.
pub open spec fn spec_is_multicast6(seg: Seq<u16>) -> bool {
    seg[0] & 0xff00u16 == 0xff00u16
}

/// The unspecified address `::`.
pub open spec fn spec_is_unspecified6(seg: Seq<u16>) -> bool {
    seg == seq![0u16, 0u16, 0u16, 0u16, 0u16, 0u16, 0u16, 0u16]
}

/// A global unicast address: neither unspecified, nor loopback, nor
/// multicast, nor link-local (`fe80::/10`).
pub open spec fn spec_is_unicast_global(seg: Seq<u16>) -> bool {
    !spec_is_unspecified6(seg) && !spec_is_loopback6(seg) && !spec_is_multicast6(seg) && seg[0] & 0xffc0u16 != 0xfe80u16
}

fn is_unspecified6(seg: &[u16; 8]) -> (r: bool)
    ensures
        r == spec_is_unspecified6(seg@),
{
    let r = seg[0] == 0 && seg[1] == 0 && seg[2] == 0 && seg[3] == 0 && seg[4] == 0 && seg[5] == 0
        && seg[6] == 0 && seg[7] == 0;
    proof {
        if r {
            assert(seg@ =~= seq![0u16, 0u16, 0u16, 0u16, 0u16, 0u16, 0u16, 0u16]);
        } else if spec_is_unspecified6(seg@) {
            assert(seg@[0] == 0u16 && seg@[1] == 0u16 && seg@[2] == 0u16 && seg@[3] == 0u16);
            assert(seg@[4] == 0u16 && seg@[5] == 0u16 && seg@[6] == 0u16 && seg@[7] == 0u16);
        }
    }
    r
}

fn is_loopback6(seg: &[u16; 8]) -> (r: bool)
    ensures
        r == spec_is_loopback6(seg@),
{
    let r = seg[0] == 0 && seg[1] == 0 && seg[2] == 0 && seg[3] == 0 && seg[4] == 0 && seg[5] == 0
        && seg[6] == 0 && seg[7] == 1;
    proof {
        if r {
            assert(seg@ =~= seq![0u16, 0u16, 0u16, 0u16, 0u16, 0u16, 0u16, 1u16]);
        } else if spec_is_loopback6(seg@) {
            assert(seg@[7] == 1u16);
        }
    }
    r
}

/// Check if an IPv6 address, given by its eight segments, is a unicast global address.
pub fn is_unicast_global(seg: &[u16; 8]) -> (r: bool)
    ensures
        r == spec_is_unicast_global(seg@),
{
    !is_unspecified6(seg) && !is_loopback6(seg) && !((seg[0] & 0xff00) == 0xff00) && (seg[0] & 0xffc0) != 0xfe80
}

/// `a` sorts strictly before `b`, comparing characters by their code points
/// (for UTF-8 text the same order as comparing the bytes).
pub open spec fn spec_str_lt(a: Seq<char>, b: Seq<char>) -> bool
    decreases a.len(),
{
    if b.len() == 0 {
        false
    } else if a.len() == 0 {
        true
    } else if a[0] != b[0] {
        (a[0] as int) < (b[0] as int)
    } else {
        spec_str_lt(a.drop_first(), b.drop_first())
    }
}

/// Whether `a` sorts strictly before `b`.
pub fn str_lt(a: &str, b: &str) -> (r: bool)
    ensures
        r == spec_str_lt(a@, b@),
{
    let x = to_chars(a);
    let y = to_chars(b);
    let mut i: usize = 0;
    assert(a@.skip(0) =~= a@);
    assert(b@.skip(0) =~= b@);
    while i < x.len() && i < y.len()
        invariant
            x@ == a@,
            y@ == b@,
            i <= x.len(),
            i <= y.len(),
            forall|k: int| 0 <= k < i ==> x@[k] == y@[k],
            spec_str_lt(a@, b@) == spec_str_lt(a@.skip(i as int), b@.skip(i as int)),
        decreases x.len() - i,
    {
        proof {
            let s = a@.skip(i as int);
            let t = b@.skip(i as int);
            assert(s.drop_first() =~= a@.skip(i + 1));
            assert(t.drop_first() =~= b@.skip(i + 1));
        }
        if x[i] != y[i] {
            return x[i] < y[i];
        }
        i = i + 1;
    }
    i < y.len()
}

/// The strict order on names is a strict total order.
pub proof fn lemma_str_lt_total(a: Seq<char>, b: Seq<char>)
    ensures
        a != b ==> spec_str_lt(a, b) || spec_str_lt(b, a),
        !(spec_str_lt(a, b) && spec_str_lt(b, a)),
        !spec_str_lt(a, a),
    decreases a.len(),
{
    if a.len() > 0 {
        lemma_str_lt_total(a.drop_first(), a.drop_first());
    }
    if a.len() > 0 && b.len() > 0 && a[0] == b[0] {
        lemma_str_lt_total(a.drop_first(), b.drop_first());
        if a.drop_first() == b.drop_first() {
            assert forall|k: int| 0 <= k < a.len() implies a[k] == b[k] by {
                if k > 0 {
                    assert(a[k] == a.drop_first()[k - 1]);
                    assert(b[k] == b.drop_first()[k - 1]);
                }
            }
            assert(a =~= b);
        }
    }
    if a.len() == 0 && b.len() == 0 {
        assert(a =~= b);
    }
    if a.len() > 0 && b.len() > 0 && a[0] != b[0] {
        assert((a[0] as int) != (b[0] as int));
    }
}

/// The strict order on names is transitive.
pub proof fn lemma_str_lt_trans(a: Seq<char>, b: Seq<char>, c: Seq<char>)
    requires
        spec_str_lt(a, b),
        spec_str_lt(b, c),
    ensures
        spec_str_lt(a, c),
    decreases a.len(),
{
    if a.len() > 0 && a[0] == b[0] && b[0] == c[0] {
        lemma_str_lt_trans(a.drop_first(), b.drop_first(), c.drop_first());
    }
}

/// An interface whose address is a global unicast IPv6 address.
pub open spec fn spec_has_global_v6(iface: (String, IpAddress)) -> bool {
    match iface.1 {
        IpAddress::V6(seg) => !spec_is_loopback6(seg@) && spec_is_unicast_global(seg@),
        IpAddress::V4(_) => false,
    }
}

/// Of the interfaces (each listed with one of its addresses), the name that
/// sorts first among those with a global unicast IPv6 address.
pub fn pick_default_ipv6_interface(ifaces: &Vec<(String, IpAddress)>) -> (r: Option<String>)
    ensures
        r is None <==> forall|i: int| 0 <= i < ifaces.len() ==> !spec_has_global_v6(#[trigger] ifaces@[i]),
        r matches Some(name) ==> exists|i: int| 0 <= i < ifaces.len() && spec_has_global_v6(#[trigger] ifaces@[i]) && ifaces@[i].0@ == name@,
        r matches Some(name) ==> forall|i: int| 0 <= i < ifaces.len() && spec_has_global_v6(#[trigger] ifaces@[i]) ==> !spec_str_lt(ifaces@[i].0@, name@),
{
    let mut best: Option<usize> = None;
    let mut i: usize = 0;
    while i < ifaces.len()
        invariant
            i <= ifaces.len(),
            best is None <==> forall|j: int| 0 <= j < i ==> !spec_has_global_v6(#[trigger] ifaces@[j]),
            best matches Some(b) ==> b < i && spec_has_global_v6(ifaces@[b as int]),
            best matches Some(b) ==> forall|j: int| 0 <= j < i && spec_has_global_v6(#[trigger] ifaces@[j]) ==> !spec_str_lt(ifaces@[j].0@, ifaces@[b as int].0@),
        decreases ifaces.len() - i,
    {
        let qualifies = match &ifaces[i].1 {
            IpAddress::V6(seg) => !is_loopback6(seg) && is_unicast_global(seg),
            IpAddress::V4(_) => false,
        };
        if qualifies {
            match best {
                None => {
                    best = Some(i);
                },
                Some(b) => {
                    if str_lt(ifaces[i].0.as_str(), ifaces[b].0.as_str()) {
                        proof {
                            assert forall|j: int| 0 <= j < i && spec_has_global_v6(#[trigger] ifaces@[j]) implies !spec_str_lt(ifaces@[j].0@, ifaces@[i as int].0@) by {
                                lemma_str_lt_total(ifaces@[j].0@, ifaces@[b as int].0@);
                                lemma_str_lt_total(ifaces@[j].0@, ifaces@[i as int].0@);
                                if spec_str_lt(ifaces@[j].0@, ifaces@[i as int].0@) {
                                    lemma_str_lt_trans(ifaces@[j].0@, ifaces@[i as int].0@, ifaces@[b as int].0@);
                                }
                            }
                            lemma_str_lt_total(ifaces@[i as int].0@, ifaces@[i as int].0@);
                        }
                        best = Some(i);
                    }
                },
            }
        }
        proof {
            if best is Some {
                lemma_str_lt_total(ifaces@[i as int].0@, ifaces@[i as int].0@);
            }
        }
        i = i + 1;
    }
    match best {
        Some(b) => Some(ifaces[b].0.clone()),
        None => None,
    }
}

} // verus!
