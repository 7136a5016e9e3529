//! Names of log files: a session is logged under the minute in which its
//! builder was made.

use vstd::prelude::*;
use chrono::Datelike;
use chrono::Timelike;

verus! {

/// A minute of the calendar, in UTC.
#[derive(Clone, Copy, Debug, PartialEq, Eq, Structural)]
pub struct CalendarStamp {
    pub year: i32,
    pub month: u32,
    pub day: u32,
    pub hour: u32,
    pub minute: u32,
}

/// The decimal digit for `d`, which is below ten.
pub open spec fn digit(d: nat) -> char {
    if d == 0 {
        '0'
    } else if d == 1 {
        '1'
    } else if d == 2 {
        '2'
    } else if d == 3 {
        '3'
    } else if d == 4 {
        '4'
    } else if d == 5 {
        '5'
    } else if d == 6 {
        '6'
    } else if d == 7 {
        '7'
    } else if d == 8 {
        '8'
    } else {
        '9'
    }
}

/// `n` written in decimal, without leading zeros.
pub open spec fn decimal(n: nat) -> Seq<char>
    decreases n,
{
    if n < 10 {
        seq![digit(n)]
    } else {
        decimal(n / 10).push(digit(n % 10))
    }
}

/// `i` written in decimal, with a minus sign in front where it is negative.
pub open spec fn signed_decimal(i: int) -> Seq<char> {
    if i < 0 {
        seq!['-'] + decimal((-i) as nat)
    } else {
        decimal(i as nat)
    }
}

/// The name of the log file for a session begun at `stamp`: year, month, day
/// and hour joined by hyphens, the hour marked `h`, the minute marked `m`,
/// none of them padded, and the extension `ltst`.
pub open spec fn log_name(stamp: CalendarStamp) -> Seq<char> {
    signed_decimal(stamp.year as int) + seq!['-'] + decimal(stamp.month as nat) + seq!['-']
        + decimal(stamp.day as nat) + seq!['-'] + decimal(stamp.hour as nat) + seq!['h']
        + decimal(stamp.minute as nat) + seq!['m', '.', 'l', 't', 's', 't']
}

/// The current minute in UTC: chrono's conversion of a `SystemTime` into a
/// `DateTime<Utc>` (`From<SystemTime>`), applied to the system clock's
/// reading, and taken apart by chrono's accessors `year`, `month`, `day`,
/// `hour` and `minute`. The conversion takes readings before 1970 as well
/// as later ones; chrono's calendar holds every reading within some
/// 262 000 years of 1970. Trusted: nothing is claimed of the year; month,
/// day, hour and minute lie in the ranges that chrono documents for them.
#[verifier::external_body]
fn utc_now() -> (stamp: CalendarStamp)
    ensures
        is_minute(stamp),
{
    let now = chrono::DateTime::<chrono::Utc>::from(std::time::SystemTime::now());
    CalendarStamp {
        year: now.year(),
        month: now.month(),
        day: now.day(),
        hour: now.hour(),
        minute: now.minute(),
    }
}

/// The text of one decimal digit.
fn digit_str(d: u64) -> (s: &'static str)
    requires
        d < 10,
    ensures
        s@ == seq![digit(d as nat)],
{
    proof {
        reveal_strlit("0");
        reveal_strlit("1");
        reveal_strlit("2");
        reveal_strlit("3");
        reveal_strlit("4");
        reveal_strlit("5");
        reveal_strlit("6");
        reveal_strlit("7");
        reveal_strlit("8");
        reveal_strlit("9");
    }
    let s = if d == 0 {
        "0"
    } else if d == 1 {
        "1"
    } else if d == 2 {
        "2"
    } else if d == 3 {
        "3"
    } else if d == 4 {
        "4"
    } else if d == 5 {
        "5"
    } else if d == 6 {
        "6"
    } else if d == 7 {
        "7"
    } else if d == 8 {
        "8"
    } else {
        "9"
    };
    assert(s@ =~= seq![digit(d as nat)]);
    s
}

/// Appends `n` in decimal to `out`.
fn push_decimal(out: &mut String, n: u64)
    ensures
        final(out)@ == old(out)@ + decimal(n as nat),
    decreases n,
{
    if n >= 10 {
        push_decimal(out, n / 10);
    }
    out.append(digit_str(n % 10));
    assert(final(out)@ =~= old(out)@ + decimal(n as nat));
}

/// Appends `i` in decimal to `out`, with its sign where it is negative.
fn push_signed_decimal(out: &mut String, i: i32)
    ensures
        final(out)@ == old(out)@ + signed_decimal(i as int),
{
    if i < 0 {
        proof {
            reveal_strlit("-");
        }
        out.append("-");
        let magnitude: u64 = (-(i as i64)) as u64;
        push_decimal(out, magnitude);
        assert(final(out)@ =~= old(out)@ + signed_decimal(i as int));
    } else {
        push_decimal(out, i as u64);
    }
}

/// The name of the log file for a session begun at `stamp`.
pub fn log_file_name(stamp: CalendarStamp) -> (name: String)
    ensures
        name@ == log_name(stamp),
{
    proof {
        reveal_strlit("-");
        reveal_strlit("h");
        reveal_strlit("m.ltst");
    }
    let mut name = String::new();
    push_signed_decimal(&mut name, stamp.year);
    name.append("-");
    push_decimal(&mut name, stamp.month as u64);
    name.append("-");
    push_decimal(&mut name, stamp.day as u64);
    name.append("-");
    push_decimal(&mut name, stamp.hour as u64);
    name.append("h");
    push_decimal(&mut name, stamp.minute as u64);
    name.append("m.ltst");
    assert(name@ =~= log_name(stamp));
    name
}

/// Whether `stamp` has a month, a day, an hour and a minute that a calendar
/// and a clock can show.
pub open spec fn is_minute(stamp: CalendarStamp) -> bool {
    &&& 1 <= stamp.month <= 12
    &&& 1 <= stamp.day <= 31
    &&& stamp.hour <= 23
    &&& stamp.minute <= 59
}

/// The name of the log file for a session begun now. Whatever the clock
/// says, the name is that of some minute of the calendar.
pub fn log_file_name_now() -> (name: String)
    ensures
        exists|stamp: CalendarStamp| name@ == #[trigger] log_name(stamp) && is_minute(stamp),
{
    let stamp = utc_now();
    log_file_name(stamp)
}

} // verus!
