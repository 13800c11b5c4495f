//! Text shown for durations and the time of day.

use vstd::prelude::*;
use crate::text::{decimal, push_decimal};

verus! {

/// "3h 24m" / "47m": the hours (when there are any) and minutes of a
/// duration in seconds; negative durations count as zero.
pub open spec fn hours_text(secs: int) -> Seq<char> {
    let s = if secs < 0 { 0 } else { secs };
    let h = s / 3600;
    let m = (s % 3600) / 60;
    if h > 0 {
        decimal(h as nat) + "h "@ + decimal(m as nat) + "m"@
    } else {
        decimal(m as nat) + "m"@
    }
}

/// Formats a duration in seconds as hours and minutes (see [`hours_text`]).
pub fn fmt_hours(secs: i64) -> (r: String)
    ensures
        r@ == hours_text(secs as int),
{
    let s: u64 = if secs < 0 { 0 } else { secs as u64 };
    let h: u64 = s / 3600;
    let m: u64 = (s % 3600) / 60;
    let mut out = String::new();
    if h > 0 {
        push_decimal(&mut out, h);
        out.append("h ");
        push_decimal(&mut out, m);
        out.append("m");
    } else {
        push_decimal(&mut out, m);
        out.append("m");
    }
    proof {
        reveal_strlit("h ");
        reveal_strlit("m");
    }
    out
}

/// Two-digit, zero-padded rendering of `n` < 100.
pub open spec fn two_digits(n: nat) -> Seq<char> {
    if n < 10 {
        seq!['0'] + decimal(n)
    } else {
        decimal(n)
    }
}

/// "m:ss": whole minutes, then the seconds padded to two digits.
pub open spec fn clock_text(secs: nat) -> Seq<char> {
    decimal(secs / 60) + seq![':'] + two_digits(secs % 60)
}

/// Formats a track position given in whole seconds as "m:ss".
pub fn fmt_time_secs(secs: u64) -> (r: String)
    ensures
        r@ == clock_text(secs as nat),
{
    let mut out = String::new();
    push_decimal(&mut out, secs / 60);
    out.append(":");
    let rest = secs % 60;
    if rest < 10 {
        out.append("0");
    }
    push_decimal(&mut out, rest);
    proof {
        reveal_strlit(":");
        reveal_strlit("0");
        assert(":"@ =~= seq![':']);
        assert("0"@ =~= seq!['0']);
    }
    out
}

/// The part of the day that hour `h` (0..23) falls in.
pub open spec fn period_of_hour(h: int) -> Seq<char> {
    if 5 <= h <= 11 {
        "Morning"@
    } else if 12 <= h <= 16 {
        "Afternoon"@
    } else if 17 <= h <= 20 {
        "Evening"@
    } else {
        "Night"@
    }
}

/// The part of the (UTC) day at unix time `t` seconds.
pub open spec fn period_at(t: u64) -> Seq<char> {
    period_of_hour(((t % 86400) / 3600) as int)
}

/// The part of the (UTC) day at unix time `unix_secs`: Morning 5-11h,
/// Afternoon 12-16h, Evening 17-20h, else Night.
pub fn time_of_day_at(unix_secs: u64) -> (r: &'static str)
    ensures
        r@ == period_at(unix_secs),
{
    let hour = (unix_secs % 86400) / 3600;
    if 5 <= hour && hour <= 11 {
        "Morning"
    } else if 12 <= hour && hour <= 16 {
        "Afternoon"
    } else if 17 <= hour && hour <= 20 {
        "Evening"
    } else {
        "Night"
    }
}

/// The system clock (`std::time::SystemTime`).
#[verifier::external_type_specification]
#[verifier::external_body]
pub struct ExSystemTime(std::time::SystemTime);

/// Reads the system clock (`SystemTime::now`); nothing is known of the time.
#[verifier::external_body]
fn system_now() -> std::time::SystemTime {
    std::time::SystemTime::now()
}

/// Whole seconds from the unix epoch to `t` (`SystemTime::duration_since`
/// with `UNIX_EPOCH`), `None` when `t` is before the epoch. What the value is
/// depends on the clock reading and is not stated.
#[verifier::external_body]
fn secs_since_unix_epoch(t: &std::time::SystemTime) -> Option<u64> {
    t.duration_since(std::time::UNIX_EPOCH).ok().map(|d| d.as_secs())
}

/// The part of the day now, by the system clock; a clock set before 1970
/// counts as midnight.
pub fn time_of_day() -> (r: &'static str)
    ensures
        exists|t: u64| r@ == #[trigger] period_at(t),
{
    let now = system_now();
    let secs = match secs_since_unix_epoch(&now) {
        Some(s) => s,
        None => 0,
    };
    let r = time_of_day_at(secs);
    assert(r@ == period_at(secs));
    r
}

/// The part of the day follows the hour of the (UTC) day: 5 to 11 o'clock
/// is Morning, 12 to 16 Afternoon, 17 to 20 Evening, and every other hour
/// Night.
pub proof fn law_part_of_day_by_hour(t: u64)
    ensures
        ({
            let h = (t % 86400) / 3600;
            &&& 5 <= h <= 11 ==> period_at(t) == "Morning"@
            &&& 12 <= h <= 16 ==> period_at(t) == "Afternoon"@
            &&& 17 <= h <= 20 ==> period_at(t) == "Evening"@
            &&& (h < 5 || h > 20) ==> period_at(t) == "Night"@
        }),
{
}

/// A position reads whole minutes, a colon, then the seconds as exactly
/// two digit characters, tens first.
pub proof fn law_clock_text_digits(secs: nat)
    ensures
        clock_text(secs).len() == decimal(secs / 60).len() + 3,
        clock_text(secs).subrange(0, decimal(secs / 60).len() as int) == decimal(secs / 60),
        clock_text(secs)[decimal(secs / 60).len() as int] == ':',
        clock_text(secs)[decimal(secs / 60).len() + 1int] as int == '0' as int + (secs % 60) / 10,
        clock_text(secs)[decimal(secs / 60).len() + 2int] as int == '0' as int + (secs % 60) % 10,
{
    let s = secs % 60;
    let k = decimal(secs / 60).len();
    crate::text::law_decimal_digits(s);
    if s >= 10 {
        crate::text::law_decimal_digits(s / 10);
        assert(decimal(s) == decimal(s / 10).push(decimal(s).last()));
        assert(decimal(s).len() == 2);
    } else {
        assert(seq!['0'] + decimal(s) =~= seq!['0', decimal(s)[0]]);
    }
    let c = clock_text(secs);
    assert(c.subrange(0, k as int) =~= decimal(secs / 60));
}

/// A duration reads "<h>h <m>m" when it lasts an hour or more and "<m>m"
/// otherwise, with whole hours and the whole minutes left over; a negative
/// duration reads as no time.
pub proof fn law_hours_text_shape(secs: int)
    ensures
        secs >= 3600 ==> hours_text(secs) == decimal((secs / 3600) as nat) + seq!['h', ' '] + decimal(
            ((secs % 3600) / 60) as nat,
        ) + seq!['m'],
        0 <= secs < 3600 ==> hours_text(secs) == decimal((secs / 60) as nat) + seq!['m'],
        secs < 0 ==> hours_text(secs) == seq!['0', 'm'],
{
    reveal_strlit("h ");
    reveal_strlit("m");
    assert("h "@ =~= seq!['h', ' ']);
    assert("m"@ =~= seq!['m']);
    assert(decimal(0) == seq!['0']);
}

} // verus!
