//! A log message prepared for display: its time of day as text and its content.
use vstd::prelude::*;

use crate::log_message::{LogMessage, Timestamp};

verus! {

/// A log message as the log view shows it.
pub struct LogEntry {
    pub timestamp: String,
    pub message: String,
}

/// The decimal digit `d` (0 to 9).
pub open spec fn digit_char(d: int) -> char {
    if d == 0 {
        '0'
    } else if d == 1 {
        '1'
    } else if d == 2 {
        '2'
    } else if d == 3 {
        '3'
    } else if d == 4 {
        '4'
    } else if d == 5 {
        '5'
    } else if d == 6 {
        '6'
    } else if d == 7 {
        '7'
    } else if d == 8 {
        '8'
    } else {
        '9'
    }
}

/// `n` (0 to 99) as two decimal digits.
pub open spec fn two_digits(n: int) -> Seq<char> {
    seq![digit_char(n / 10), digit_char(n % 10)]
}

/// The UTC time of day of `t` as `HH:MM:SS` (chrono's `%H:%M:%S`); a leap
/// second shows as second 60.
pub open spec fn time_of_day(t: Timestamp) -> Seq<char> {
    let day_second = t.seconds as int % 86400;
    let hours = day_second / 3600;
    let minutes = day_second % 3600 / 60;
    let seconds = day_second % 60 + if t.subsec_nanos >= 1_000_000_000 {
        1int
    } else {
        0int
    };
    two_digits(hours) + seq![':'] + two_digits(minutes) + seq![':'] + two_digits(seconds)
}

/// The time of day repeats every day: moving a moment by whole days does
/// not change the time shown.
pub proof fn lemma_time_of_day_repeats_daily(t: Timestamp, u: Timestamp, days: int)
    requires
        u.seconds == t.seconds + days * 86400,
        u.subsec_nanos == t.subsec_nanos,
    ensures
        time_of_day(u) == time_of_day(t),
{
    assert(u.seconds as int % 86400 == t.seconds as int % 86400) by (nonlinear_arith)
        requires
            u.seconds as int == t.seconds as int + days * 86400,
    ;
}

/// The number written by the decimal digits `tens` and `ones`.
pub open spec fn digits_value(tens: char, ones: char) -> int {
    (tens as int - '0' as int) * 10 + (ones as int - '0' as int)
}

/// The digit characters stand for their values.
proof fn lemma_two_digits_value(n: int)
    requires
        0 <= n < 100,
    ensures
        two_digits(n).len() == 2,
        digits_value(two_digits(n)[0], two_digits(n)[1]) == n,
{
    let t = n / 10;
    let o = n % 10;
    assert(0 <= t < 10 && 0 <= o < 10);
    assert(digit_char(t) as int - '0' as int == t);
    assert(digit_char(o) as int - '0' as int == o);
}

/// The time shown reads as hours, minutes and seconds of the UTC day: the
/// hours and minutes of `t.seconds` within its day and, outside a leap
/// second (nanoseconds below one billion), the seconds of its minute, which
/// are at most 59 and do not depend on the nanoseconds; a leap second (one
/// billion nanoseconds or more) shows as one more, 60.
pub proof fn law_time_of_day_reads_back(t: Timestamp)
    ensures
        time_of_day(t).len() == 8,
        time_of_day(t)[2] == ':' && time_of_day(t)[5] == ':',
        digits_value(time_of_day(t)[0], time_of_day(t)[1]) == (t.seconds as int % 86400) / 3600,
        digits_value(time_of_day(t)[3], time_of_day(t)[4]) == (t.seconds as int % 3600) / 60,
        t.subsec_nanos < 1_000_000_000 ==> digits_value(time_of_day(t)[6], time_of_day(t)[7])
            == t.seconds as int % 60,
        t.subsec_nanos >= 1_000_000_000 ==> digits_value(time_of_day(t)[6], time_of_day(t)[7])
            == t.seconds as int % 60 + 1,
{
    let x = t.seconds as int;
    let day_second = x % 86400;
    vstd::arithmetic::div_mod::lemma_mod_mod(x, 3600, 24);
    vstd::arithmetic::div_mod::lemma_mod_mod(x, 60, 1440);
    assert(day_second % 3600 == x % 3600);
    assert(day_second % 60 == x % 60);
    let hours = day_second / 3600;
    let minutes = day_second % 3600 / 60;
    let seconds = day_second % 60 + if t.subsec_nanos >= 1_000_000_000 {
        1int
    } else {
        0int
    };
    assert(0 <= hours < 24);
    assert(0 <= minutes < 60);
    assert(0 <= seconds < 61);
    lemma_two_digits_value(hours);
    lemma_two_digits_value(minutes);
    lemma_two_digits_value(seconds);
    let s = time_of_day(t);
    assert(s == two_digits(hours) + seq![':'] + two_digits(minutes) + seq![':'] + two_digits(seconds));
    assert(s[0] == two_digits(hours)[0] && s[1] == two_digits(hours)[1]);
    assert(s[3] == two_digits(minutes)[0] && s[4] == two_digits(minutes)[1]);
    assert(s[6] == two_digits(seconds)[0] && s[7] == two_digits(seconds)[1]);
}

/// Outside a leap second the time shown does not depend on the fraction of
/// the second: it is the time shown at the start of that second.
pub proof fn law_time_of_day_ignores_fraction(t: Timestamp)
    requires
        t.subsec_nanos < 1_000_000_000,
    ensures
        time_of_day(t) == time_of_day(Timestamp { seconds: t.seconds, subsec_nanos: 0 }),
{
}

/// Appends `n` (0 to 99) as two decimal digits.
fn push_two_digits(text: &mut String, n: u32)
    requires
        n < 100,
    ensures
        final(text)@ == old(text)@ + two_digits(n as int),
{
    let digits = "0123456789";
    proof {
        reveal_strlit("0123456789");
    }
    let tens = (n / 10) as usize;
    let ones = (n % 10) as usize;
    text.append(digits.substring_char(tens, tens + 1));
    text.append(digits.substring_char(ones, ones + 1));
    proof {
        assert(digits@.subrange(tens as int, tens + 1) =~= seq![digit_char(tens as int)]);
        assert(digits@.subrange(ones as int, ones + 1) =~= seq![digit_char(ones as int)]);
        assert(final(text)@ =~= old(text)@ + two_digits(n as int));
    }
}

/// The UTC time of day of `t` as `HH:MM:SS`.
pub fn format_time_of_day(t: Timestamp) -> (r: String)
    ensures
        r@ == time_of_day(t),
        t.subsec_nanos < 1_000_000_000 ==> r@.len() == 8 && digits_value(r@[6], r@[7])
            == t.seconds as int % 60,
{
    let day_second = match t.seconds.checked_rem_euclid(86400) {
        Some(s) => s,
        None => 0,
    };
    assert(0 <= day_second < 86400);
    let day_second = day_second as u32;
    let hours = day_second / 3600;
    let minutes = day_second % 3600 / 60;
    let leap: u32 = if t.subsec_nanos >= 1_000_000_000 {
        1
    } else {
        0
    };
    let seconds = day_second % 60 + leap;
    let colon = ":";
    proof {
        reveal_strlit(":");
    }
    let mut text = String::new();
    push_two_digits(&mut text, hours);
    text.append(colon);
    push_two_digits(&mut text, minutes);
    text.append(colon);
    push_two_digits(&mut text, seconds);
    assert(text@ =~= time_of_day(t));
    proof {
        law_time_of_day_reads_back(t);
    }
    text
}

impl From<LogMessage> for LogEntry {
    fn from(value: LogMessage) -> (r: Self)
        ensures
            r.timestamp@ == time_of_day(value.timestamp),
            r.message@ == value.content@,
    {
        LogEntry { timestamp: format_time_of_day(value.timestamp), message: value.content }
    }
}

/// A log entry's text cannot be built in a specification, so `from` is
/// described by its own `ensures` only.
impl vstd::std_specs::convert::FromSpecImpl<LogMessage> for LogEntry {
    open spec fn obeys_from_spec() -> bool {
        false
    }

    open spec fn from_spec(v: LogMessage) -> Self {
        arbitrary()
    }
}

} // verus!
