use vstd::prelude::*;
use crate::text::{decimal, decimal_string};

verus! {

/// `n / unit`, rounded to the nearest integer, an exact half to the even
/// neighbour.
pub open spec fn rounded_div(n: nat, unit: nat) -> nat
    recommends
        unit > 0,
{
    let q = n / unit;
    let twice_rem = (n % unit) * 2;
    if twice_rem > unit || (twice_rem == unit && q % 2 == 1) {
        q + 1
    } else {
        q
    }
}

/// A count of tenths written with one decimal place, as in `12.5`.
pub open spec fn tenths_text(t: nat) -> Seq<char> {
    decimal(t / 10) + "."@ + decimal(t % 10)
}

/// How an elapsed time of `ms` milliseconds is shown to a reader: whole
/// milliseconds below one second, seconds with one decimal below one minute,
/// minutes with one decimal from then on.
pub open spec fn duration_text(ms: nat) -> Seq<char> {
    if ms < 1000 {
        decimal(ms) + " milliseconds"@
    } else if ms < 60_000 {
        tenths_text(rounded_div(ms, 100)) + " seconds"@
    } else {
        tenths_text(rounded_div(ms, 6000)) + " minutes"@
    }
}

fn rounded_div_exec(n: u64, unit: u64) -> (r: u64)
    requires
        unit >= 2,
    ensures
        r == rounded_div(n as nat, unit as nat),
{
    let rem = n % unit;
    let q = n / unit;
    assert(q <= n / 2) by (nonlinear_arith)
        requires q == n / unit, unit >= 2;
    if rem > unit - rem || (rem == unit - rem && q % 2 == 1) {
        q + 1
    } else {
        q
    }
}

fn tenths_string(t: u64) -> (r: String)
    ensures
        r@ == tenths_text(t as nat),
{
    let mut s = decimal_string(t / 10);
    s.append(".");
    let frac = decimal_string(t % 10);
    s.append(frac.as_str());
    s
}

/// Renders an elapsed time given in milliseconds for a progress message.
pub fn intuitive_duration(millis: u64) -> (r: String)
    ensures
        r@ == duration_text(millis as nat),
{
    if millis < 1000 {
        let mut s = decimal_string(millis);
        s.append(" milliseconds");
        s
    } else if millis < 60_000 {
        let mut s = tenths_string(rounded_div_exec(millis, 100));
        s.append(" seconds");
        s
    } else {
        let mut s = tenths_string(rounded_div_exec(millis, 6000));
        s.append(" minutes");
        s
    }
}

} // verus!
