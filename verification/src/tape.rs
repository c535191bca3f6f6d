//! Formatting of trade times for the time-and-sales tape.

use vstd::prelude::*;

use crate::text::{decimal, spec_decimal, spec_two_digits, two_digits};

verus! {

/// Integer division rounding toward zero, for a positive divisor.
pub open spec fn trunc_div(a: int, b: int) -> int {
    if a >= 0 {
        a / b
    } else {
        -((-a) / b)
    }
}

/// Remainder of the division rounding toward zero; it has the sign of `a`.
pub open spec fn trunc_rem(a: int, b: int) -> int {
    a - b * trunc_div(a, b)
}

/// A clock field written with at least two digits; a negative field is a
/// minus sign and its digits.
pub open spec fn spec_clock_field(c: int) -> Seq<char> {
    if c < 0 {
        seq!['-'] + spec_decimal((-c) as nat)
    } else {
        spec_two_digits(c as nat)
    }
}

/// `HH:MM:SS` of a millisecond timestamp, within the day (UTC).
pub open spec fn spec_format_timestamp(ts: int) -> Seq<char> {
    let secs = trunc_div(ts, 1000);
    let h = trunc_rem(trunc_div(secs, 3600), 24);
    let m = trunc_rem(trunc_div(secs, 60), 60);
    let s = trunc_rem(secs, 60);
    spec_clock_field(h) + seq![':'] + spec_clock_field(m) + seq![':'] + spec_clock_field(s)
}

/// Every field of the clock of a non-negative timestamp is within its range
/// and written with two digits, so the text is `HH:MM:SS`, eight characters.
pub proof fn lemma_format_timestamp_shape(ts: int)
    requires
        ts >= 0,
    ensures
        spec_format_timestamp(ts).len() == 8,
        spec_format_timestamp(ts)[2] == ':',
        spec_format_timestamp(ts)[5] == ':',
{
    let secs = trunc_div(ts, 1000);
    let h = trunc_rem(trunc_div(secs, 3600), 24);
    let m = trunc_rem(trunc_div(secs, 60), 60);
    let s = trunc_rem(secs, 60);
    assert(0 <= h < 24 && 0 <= m < 60 && 0 <= s < 60);
    lemma_two_digit_field(h);
    lemma_two_digit_field(m);
    lemma_two_digit_field(s);
}

proof fn lemma_two_digit_field(c: int)
    requires
        0 <= c < 100,
    ensures
        spec_clock_field(c).len() == 2,
{
    reveal_with_fuel(spec_decimal, 3);
    if c >= 10 {
        assert(spec_decimal((c / 10) as nat).len() == 1);
    }
}

/// Writes one clock field from its magnitude and whether it is negative.
fn clock_field(magnitude: u64, negative: bool) -> (s: String)
    ensures
        s@ == spec_clock_field(if negative { -(magnitude as int) } else { magnitude as int }),
{
    if negative && magnitude > 0 {
        proof {
            reveal_strlit("-");
        }
        String::from_str("-").concat(decimal(magnitude).as_str())
    } else {
        two_digits(magnitude)
    }
}

pub fn format_timestamp(ts: i64) -> (s: String)
    ensures
        s@ == spec_format_timestamp(ts as int),
{
    let negative = ts < 0;
    let a: u64 = if negative { ((-(ts + 1)) as u64) + 1 } else { ts as u64 };
    let secs: u64 = a / 1000;
    let h: u64 = (secs / 3600) % 24;
    let m: u64 = (secs / 60) % 60;
    let sec: u64 = secs % 60;
    proof {
        let t = ts as int;
        assert(a as int == if t < 0 { -t } else { t });
        let ss = trunc_div(t, 1000);
        assert(ss == if negative { -(secs as int) } else { secs as int });
        assert(trunc_rem(trunc_div(ss, 3600), 24) == if negative { -(h as int) } else { h as int });
        assert(trunc_rem(trunc_div(ss, 60), 60) == if negative { -(m as int) } else { m as int });
        assert(trunc_rem(ss, 60) == if negative { -(sec as int) } else { sec as int });
        reveal_strlit(":");
    }
    let mut out = clock_field(h, negative);
    out.append(":");
    out.append(clock_field(m, negative).as_str());
    out.append(":");
    out.append(clock_field(sec, negative).as_str());
    out
}

} // verus!
