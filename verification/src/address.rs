//! Reading and writing IP addresses as text.

use vstd::prelude::*;
use crate::models::IpAddress;
use crate::text::push_char;

verus! {

/// The character of a decimal digit.
pub open spec fn spec_digit(d: nat) -> char {
    if d == 0 { '0' } else if d == 1 { '1' } else if d == 2 { '2' } else if d == 3 { '3' }
    else if d == 4 { '4' } else if d == 5 { '5' } else if d == 6 { '6' } else if d == 7 { '7' }
    else if d == 8 { '8' } else { '9' }
}

/// The decimal notation of `n`, without leading zeros.
pub open spec fn spec_decimal(n: nat) -> Seq<char>
    decreases n,
{
    if n < 10 {
        seq![spec_digit(n)]
    } else {
        spec_decimal(n / 10) + seq![spec_digit(n % 10)]
    }
}

/// Dotted-decimal notation of an IPv4 address.
pub open spec fn spec_ipv4_text(o: Seq<u8>) -> Seq<char> {
    spec_decimal(o[0] as nat) + seq!['.'] + spec_decimal(o[1] as nat) + seq!['.']
        + spec_decimal(o[2] as nat) + seq!['.'] + spec_decimal(o[3] as nat)
}

/// A hexadecimal digit, in lower case.
pub open spec fn spec_hex_digit(d: nat) -> char {
    if d < 10 { spec_digit(d) } else if d == 10 { 'a' } else if d == 11 { 'b' } else if d == 12 { 'c' }
    else if d == 13 { 'd' } else if d == 14 { 'e' } else { 'f' }
}

/// The lower-case hexadecimal notation of `n`, without leading zeros.
pub open spec fn spec_hex(n: nat) -> Seq<char>
    decreases n,
{
    if n < 16 {
        seq![spec_hex_digit(n)]
    } else {
        spec_hex(n / 16) + seq![spec_hex_digit(n % 16)]
    }
}

/// Segments in hexadecimal, separated by colons.
pub open spec fn spec_hex_groups(s: Seq<u16>) -> Seq<char>
    decreases s.len(),
{
    if s.len() == 0 {
        Seq::empty()
    } else if s.len() == 1 {
        spec_hex(s[0] as nat)
    } else {
        spec_hex(s[0] as nat) + seq![':'] + spec_hex_groups(s.drop_first())
    }
}

/// The first longest run of zero segments at or after position `i`, given the
/// run being counted (`cur`) and the longest seen so far (`best`), each as
/// `(start, length)`.
pub open spec fn spec_zero_span_from(s: Seq<u16>, i: int, cur: (int, int), best: (int, int)) -> (int, int)
    decreases s.len() - i,
{
    if i >= s.len() || i < 0 {
        best
    } else if s[i] == 0 {
        let c = if cur.1 == 0 { (i, 1int) } else { (cur.0, cur.1 + 1) };
        let b = if c.1 > best.1 { c } else { best };
        spec_zero_span_from(s, i + 1, c, b)
    } else {
        spec_zero_span_from(s, i + 1, (0, 0), best)
    }
}

/// The first longest run of zero segments, as `(start, length)`.
pub open spec fn spec_zero_span(s: Seq<u16>) -> (int, int) {
    spec_zero_span_from(s, 0, (0, 0), (0, 0))
}

/// An IPv4-mapped address `::ffff:a.b.c.d`.
pub open spec fn spec_is_v4_mapped(s: Seq<u16>) -> bool {
    s[0] == 0 && s[1] == 0 && s[2] == 0 && s[3] == 0 && s[4] == 0 && s[5] == 0xffffu16
}

/// The text of an IPv6 address given by its eight segments: an IPv4-mapped
/// address as `::ffff:` and the dotted quad; otherwise the segments in
/// lower-case hexadecimal separated by colons, the first longest run of at
/// least two zero segments written as `::`.
pub open spec fn spec_ipv6_text(s: Seq<u16>) -> Seq<char> {
    if spec_is_v4_mapped(s) {
        seq![':', ':', 'f', 'f', 'f', 'f', ':'] + spec_ipv4_text(seq![
            (s[6] / 256) as u8,
            (s[6] % 256) as u8,
            (s[7] / 256) as u8,
            (s[7] % 256) as u8,
        ])
    } else {
        let z = spec_zero_span(s);
        if z.1 > 1 {
            spec_hex_groups(s.take(z.0)) + seq![':', ':'] + spec_hex_groups(s.skip(z.0 + z.1))
        } else {
            spec_hex_groups(s)
        }
    }
}

/// The text of an address: dotted decimal for IPv4, colon-separated hexadecimal for IPv6.
pub open spec fn spec_ip_text(ip: IpAddress) -> Seq<char> {
    match ip {
        IpAddress::V4(o) => spec_ipv4_text(o@),
        IpAddress::V6(s) => spec_ipv6_text(s@),
    }
}

pub(crate) fn digit(d: u8) -> (c: char)
    requires
        d < 10,
    ensures
        c == spec_digit(d as nat),
{
    if d == 0 { '0' } else if d == 1 { '1' } else if d == 2 { '2' } else if d == 3 { '3' }
    else if d == 4 { '4' } else if d == 5 { '5' } else if d == 6 { '6' } else if d == 7 { '7' }
    else if d == 8 { '8' } else { '9' }
}

/// Appends the decimal notation of `n`.
fn push_decimal(s: &mut String, n: u8)
    ensures
        final(s)@ == old(s)@ + spec_decimal(n as nat),
{
    if n >= 100 {
        push_char(s, digit(n / 100));
        push_char(s, digit((n / 10) % 10));
        push_char(s, digit(n % 10));
        proof {
            let m = n as nat;
            assert(spec_decimal(m / 100) == seq![spec_digit(m / 100)]);
            assert((m / 10) / 10 == m / 100);
            assert(spec_decimal(m / 10) == spec_decimal(m / 100) + seq![spec_digit((m / 10) % 10)]);
            assert(final(s)@ =~= old(s)@ + spec_decimal(m));
        }
    } else if n >= 10 {
        push_char(s, digit(n / 10));
        push_char(s, digit(n % 10));
        proof {
            let m = n as nat;
            assert(spec_decimal(m / 10) == seq![spec_digit(m / 10)]);
            assert(final(s)@ =~= old(s)@ + spec_decimal(m));
        }
    } else {
        push_char(s, digit(n));
        proof {
            assert(final(s)@ =~= old(s)@ + spec_decimal(n as nat));
        }
    }
}

fn hex_digit(d: u16) -> (c: char)
    requires
        d < 16,
    ensures
        c == spec_hex_digit(d as nat),
{
    if d < 10 { digit(d as u8) } else if d == 10 { 'a' } else if d == 11 { 'b' } else if d == 12 { 'c' }
    else if d == 13 { 'd' } else if d == 14 { 'e' } else { 'f' }
}

/// Appends the hexadecimal notation of `n`.
fn push_hex(s: &mut String, n: u16)
    ensures
        final(s)@ == old(s)@ + spec_hex(n as nat),
    decreases n,
{
    if n >= 16 {
        push_hex(s, n / 16);
    }
    push_char(s, hex_digit(n % 16));
    proof {
        if n < 16 {
            assert(n % 16 == n);
        }
        assert(final(s)@ =~= old(s)@ + spec_hex(n as nat));
    }
}

/// Appends segments `lo..hi` in hexadecimal, separated by colons.
fn push_hex_groups(s: &mut String, seg: &[u16; 8], lo: usize, hi: usize)
    requires
        lo <= hi <= 8,
    ensures
        final(s)@ == old(s)@ + spec_hex_groups(seg@.subrange(lo as int, hi as int)),
{
    let mut i = lo;
    while i < hi
        invariant
            lo <= i <= hi <= 8,
            s@ + spec_hex_groups(seg@.subrange(i as int, hi as int)) == old(s)@ + spec_hex_groups(seg@.subrange(lo as int, hi as int)),
        decreases hi - i,
    {
        let ghost before = s@;
        proof {
            let t = seg@.subrange(i as int, hi as int);
            assert(t.drop_first() =~= seg@.subrange(i + 1, hi as int));
            assert(t[0] == seg@[i as int]);
        }
        push_hex(s, seg[i]);
        if i + 1 < hi {
            push_char(s, ':');
            proof {
                assert(before + spec_hex_groups(seg@.subrange(i as int, hi as int)) =~= s@ + spec_hex_groups(seg@.subrange(i + 1, hi as int)));
            }
        } else {
            proof {
                assert(seg@.subrange(i + 1, hi as int) =~= Seq::<u16>::empty());
                assert(before + spec_hex_groups(seg@.subrange(i as int, hi as int)) =~= s@ + spec_hex_groups(seg@.subrange(i + 1, hi as int)));
            }
        }
        i = i + 1;
    }
    proof {
        assert(seg@.subrange(hi as int, hi as int) =~= Seq::<u16>::empty());
        assert(s@ + Seq::<char>::empty() =~= s@);
    }
}

/// The first longest run of zero segments, as `(start, length)`.
fn zero_span(seg: &[u16; 8]) -> (r: (usize, usize))
    ensures
        (r.0 as int, r.1 as int) == spec_zero_span(seg@),
        r.0 + r.1 <= 8,
{
    let mut best: (usize, usize) = (0, 0);
    let mut cur: (usize, usize) = (0, 0);
    let mut i: usize = 0;
    while i < 8
        invariant
            i <= 8,
            cur.0 + cur.1 <= i,
            best.0 + best.1 <= i,
            spec_zero_span(seg@) == spec_zero_span_from(seg@, i as int, (cur.0 as int, cur.1 as int), (best.0 as int, best.1 as int)),
        decreases 8 - i,
    {
        if seg[i] == 0 {
            if cur.1 == 0 {
                cur = (i, 1);
            } else {
                cur = (cur.0, cur.1 + 1);
            }
            if cur.1 > best.1 {
                best = cur;
            }
        } else {
            cur = (0, 0);
        }
        i = i + 1;
    }
    best
}

/// Writes an IPv6 address given by its eight segments.
fn ipv6_to_string(seg: &[u16; 8]) -> (r: String)
    ensures
        r@ == spec_ipv6_text(seg@),
{
    let mut s = String::new();
    if seg[0] == 0 && seg[1] == 0 && seg[2] == 0 && seg[3] == 0 && seg[4] == 0 && seg[5] == 0xffff {
        s.append("::ffff:");
        let o: [u8; 4] = [(seg[6] / 256) as u8, (seg[6] % 256) as u8, (seg[7] / 256) as u8, (seg[7] % 256) as u8];
        let t = ipv4_to_string(&o);
        s.append(t.as_str());
        proof {
            reveal_strlit("::ffff:");
            assert(o@ =~= seq![(seg@[6] / 256) as u8, (seg@[6] % 256) as u8, (seg@[7] / 256) as u8, (seg@[7] % 256) as u8]);
            assert(s@ =~= spec_ipv6_text(seg@));
        }
    } else {
        let (start, len) = zero_span(seg);
        if len > 1 {
            push_hex_groups(&mut s, seg, 0, start);
            push_char(&mut s, ':');
            push_char(&mut s, ':');
            push_hex_groups(&mut s, seg, start + len, 8);
            proof {
                assert(seg@.subrange(0, start as int) =~= seg@.take(start as int));
                assert(seg@.subrange((start + len) as int, 8) =~= seg@.skip((start + len) as int));
                assert(s@ =~= spec_ipv6_text(seg@));
            }
        } else {
            push_hex_groups(&mut s, seg, 0, 8);
            proof {
                assert(seg@.subrange(0, 8) =~= seg@);
            }
        }
    }
    s
}

fn ipv4_to_string(o: &[u8; 4]) -> (r: String)
    ensures
        r@ == spec_ipv4_text(o@),
{
    let mut s = String::new();
    push_decimal(&mut s, o[0]);
    push_char(&mut s, '.');
    push_decimal(&mut s, o[1]);
    push_char(&mut s, '.');
    push_decimal(&mut s, o[2]);
    push_char(&mut s, '.');
    push_decimal(&mut s, o[3]);
    proof {
        assert(s@ =~= spec_ipv4_text(o@));
    }
    s
}

/// The text of an address.
pub fn ip_to_string(ip: &IpAddress) -> (r: String)
    ensures
        r@ == spec_ip_text(*ip),
{
    match ip {
        IpAddress::V4(o) => ipv4_to_string(o),
        IpAddress::V6(seg) => ipv6_to_string(seg),
    }
}

} // verus!
