//! Times of day as the interface shows them.

use vstd::prelude::*;
use crate::address::{digit, spec_digit};

verus! {

/// Two decimal digits of a number below 100.
pub open spec fn spec_two_digits(n: int) -> Seq<char> {
    seq![spec_digit((n / 10) as nat), spec_digit((n % 10) as nat)]
}

/// The time of day, in UTC, of a moment given in seconds since the Unix
/// epoch, as `HH:MM:SS`.
pub open spec fn spec_clock_text(t: int) -> Seq<char> {
    let s = t % 86400;
    spec_two_digits(s / 3600) + ":"@ + spec_two_digits((s % 3600) / 60) + ":"@ + spec_two_digits(s % 60)
}

fn two_digits(n: u64) -> (r: String)
    requires
        n < 100,
    ensures
        r@ == spec_two_digits(n as int),
{
    let mut r = String::new();
    crate::text::push_char(&mut r, digit((n / 10) as u8));
    crate::text::push_char(&mut r, digit((n % 10) as u8));
    assert(r@ =~= spec_two_digits(n as int));
    r
}

/// The seconds since midnight, in UTC, of a moment given in seconds since the Unix epoch.
fn seconds_of_day(t: i64) -> (r: u64)
    ensures
        r as int == (t as int) % 86400,
{
    if t >= 0 {
        (t as u64) % 86400
    } else {
        let u: u64 = (-(t + 1)) as u64;
        let r = 86399 - u % 86400;
        proof {
            let q = (u as int) / 86400;
            let m = (u as int) % 86400;
            assert((u as int) == q * 86400 + m) by (nonlinear_arith)
                requires q == (u as int) / 86400, m == (u as int) % 86400;
            assert((t as int) == (-q - 1) * 86400 + (86399 - m)) by (nonlinear_arith)
                requires (u as int) == q * 86400 + m, (t as int) == -(u as int) - 1;
            vstd::arithmetic::div_mod::lemma_fundamental_div_mod_converse(t as int, 86400, -q - 1, 86399 - m);
        }
        r
    }
}

/// The time of day, in UTC, of a moment given in seconds since the Unix
/// epoch, as `HH:MM:SS`.
pub fn clock_text(t: i64) -> (r: String)
    ensures
        r@ == spec_clock_text(t as int),
{
    let s = seconds_of_day(t);
    let h = two_digits(s / 3600);
    let m = two_digits((s % 3600) / 60);
    let sec = two_digits(s % 60);
    h.concat(":").concat(m.as_str()).concat(":").concat(sec.as_str())
}

/// The current time in seconds since the Unix epoch, by
/// `chrono::Utc::now().timestamp()`. Nothing is known of it.
#[verifier::external_body]
pub(crate) fn utc_now_seconds() -> (r: i64) {
    chrono::Utc::now().timestamp()
}

/// The moment `secs` seconds after the Unix epoch, in UTC, as
/// `YYYY-MM-DDTHH:MM:SSZ`; none for a moment outside the dates chrono holds.
pub uninterp spec fn spec_iso_timestamp(secs: i64) -> Option<Seq<char>>;

/// The moment `secs` seconds after the Unix epoch as `YYYY-MM-DDTHH:MM:SSZ`,
/// by `chrono::DateTime::from_timestamp` written with `format`; none when
/// chrono has no such moment.
#[verifier::external_body]
pub(crate) fn iso_timestamp(secs: i64) -> (r: Option<String>)
    ensures
        r is Some <==> spec_iso_timestamp(secs) is Some,
        r is Some ==> spec_iso_timestamp(secs) == Some(r->0@),
{
    match chrono::DateTime::from_timestamp(secs, 0) {
        Some(d) => Some(d.format("%Y-%m-%dT%H:%M:%SZ").to_string()),
        None => None,
    }
}

} // verus!
