//! The date format of the HTTP `Date` header (IMF-fixdate), as in
//! `Sun, 06 Nov 1994 08:49:37 GMT`, with up to three fraction digits after
//! the seconds.

use super::calendar::{
    day_of_week, days_in_month, weekday, Civil, Date, FIRST_SECOND, LAST_SECOND,
};
use super::text::{
    field_value, fraction_nanos, fraction_text, padded, parse_field, parse_fraction, pow10,
    push_fraction, push_padded, trim, trimmed,
};
use super::{DateTimeFormatError, DateTimeParseError};
use crate::date_time::DateTime;
use vstd::prelude::*;
use vstd::string::StringExecFns;

verus! {

/// The name of the day of the week `day`, counted from Monday as 0.
pub open spec fn spec_weekday_name(day: int) -> Seq<char> {
    if day == 0 {
        seq!['M', 'o', 'n']
    } else if day == 1 {
        seq!['T', 'u', 'e']
    } else if day == 2 {
        seq!['W', 'e', 'd']
    } else if day == 3 {
        seq!['T', 'h', 'u']
    } else if day == 4 {
        seq!['F', 'r', 'i']
    } else if day == 5 {
        seq!['S', 'a', 't']
    } else {
        seq!['S', 'u', 'n']
    }
}

/// The name of the month `month`, counted from January as 1.
pub open spec fn spec_month_name(month: int) -> Seq<char> {
    if month == 1 {
        seq!['J', 'a', 'n']
    } else if month == 2 {
        seq!['F', 'e', 'b']
    } else if month == 3 {
        seq!['M', 'a', 'r']
    } else if month == 4 {
        seq!['A', 'p', 'r']
    } else if month == 5 {
        seq!['M', 'a', 'y']
    } else if month == 6 {
        seq!['J', 'u', 'n']
    } else if month == 7 {
        seq!['J', 'u', 'l']
    } else if month == 8 {
        seq!['A', 'u', 'g']
    } else if month == 9 {
        seq!['S', 'e', 'p']
    } else if month == 10 {
        seq!['O', 'c', 't']
    } else if month == 11 {
        seq!['N', 'o', 'v']
    } else {
        seq!['D', 'e', 'c']
    }
}

/// Whether the three characters are the name of a day of the week.
pub open spec fn spec_is_weekday(a: char, b: char, c: char) -> bool {
    ||| (a == 'M' && b == 'o' && c == 'n')
    ||| (a == 'T' && b == 'u' && c == 'e')
    ||| (a == 'W' && b == 'e' && c == 'd')
    ||| (a == 'T' && b == 'h' && c == 'u')
    ||| (a == 'F' && b == 'r' && c == 'i')
    ||| (a == 'S' && b == 'a' && c == 't')
    ||| (a == 'S' && b == 'u' && c == 'n')
}

/// The month that the three characters name, counted from January as 1.
pub open spec fn spec_month_of(a: char, b: char, c: char) -> Option<int> {
    if a == 'J' && b == 'a' && c == 'n' {
        Some(1)
    } else if a == 'F' && b == 'e' && c == 'b' {
        Some(2)
    } else if a == 'M' && b == 'a' && c == 'r' {
        Some(3)
    } else if a == 'A' && b == 'p' && c == 'r' {
        Some(4)
    } else if a == 'M' && b == 'a' && c == 'y' {
        Some(5)
    } else if a == 'J' && b == 'u' && c == 'n' {
        Some(6)
    } else if a == 'J' && b == 'u' && c == 'l' {
        Some(7)
    } else if a == 'A' && b == 'u' && c == 'g' {
        Some(8)
    } else if a == 'S' && b == 'e' && c == 'p' {
        Some(9)
    } else if a == 'O' && b == 'c' && c == 't' {
        Some(10)
    } else if a == 'N' && b == 'o' && c == 'v' {
        Some(11)
    } else if a == 'D' && b == 'e' && c == 'c' {
        Some(12)
    } else {
        None
    }
}

/// Whether the format can write the second `seconds`: it writes the years 0
/// to 9999.
pub open spec fn writable(seconds: int) -> bool {
    FIRST_SECOND <= seconds <= LAST_SECOND
}

/// An instant as an HTTP date: the day of the week, the day, month and
/// year, the time of day, the milliseconds as a fraction if there are any,
/// and `GMT`. What lies below a millisecond is not written.
pub open spec fn written(seconds: int, nanos: nat) -> Seq<char> {
    let at = Civil::of_seconds(seconds);
    spec_weekday_name(weekday(seconds / 86_400)) + seq![',', ' '] + padded(at.date.day as nat, 2)
        + seq![' '] + spec_month_name(at.date.month as int) + seq![' '] + padded(
        at.date.year as nat,
        4,
    ) + seq![' '] + padded(at.hour as nat, 2) + seq![':'] + padded(at.minute as nat, 2) + seq![':']
        + padded(at.second as nat, 2) + fraction_text(nanos / 1_000_000, 3) + seq![
        ' ',
        'G',
        'M',
        'T',
    ]
}

/// The seconds and nanoseconds that `s` writes as an HTTP date. White
/// space around the date is passed over. The date has the shape
/// `Sun, 06 Nov 1994 08:49:37 GMT`, with one to three fraction digits after
/// the seconds if there are any. The day of the week must be the name of
/// one, though not of the day that the date falls on. The day must be one
/// of the month's, and the time one of the day's.
pub open spec fn parsed(s: Seq<char>) -> Option<(int, int)> {
    let t = trimmed(s);
    let n = t.len() as int;
    if n < 29 || n > 33 {
        None
    } else if !{
        &&& spec_is_weekday(t[0], t[1], t[2])
        &&& t[3] == ','
        &&& t[4] == ' '
        &&& t[7] == ' '
        &&& t[11] == ' '
        &&& t[16] == ' '
        &&& t[19] == ':'
        &&& t[22] == ':'
        &&& t[n - 4] == ' '
        &&& t[n - 3] == 'G'
        &&& t[n - 2] == 'M'
        &&& t[n - 1] == 'T'
    } {
        None
    } else {
        let fraction: Option<int> = if n == 29 {
            Some(0int)
        } else if t[25] == '.' {
            fraction_nanos(t.subrange(26, n - 4))
        } else {
            None
        };
        match (
            field_value(t.subrange(5, 7)),
            spec_month_of(t[8], t[9], t[10]),
            field_value(t.subrange(12, 16)),
            field_value(t.subrange(17, 19)),
            field_value(t.subrange(20, 22)),
            field_value(t.subrange(23, 25)),
            fraction,
        ) {
            (
                Some(day),
                Some(month),
                Some(year),
                Some(hour),
                Some(minute),
                Some(second),
                Some(nanos),
            ) => {
                let at = Civil {
                    date: Date { year: year as i32, month: month as u8, day: day as u8 },
                    hour: hour as u8,
                    minute: minute as u8,
                    second: second as u8,
                };
                if 1 <= day <= days_in_month(year, month) && hour < 24 && minute < 60 && second
                    < 60 {
                    Some((at.seconds(), nanos))
                } else {
                    None
                }
            },
            _ => None,
        }
    }
}

/// The index just after the first ` GMT` in `s`, if there is one.
pub open spec fn gmt_end(s: Seq<char>) -> Option<int>
    decreases s.len(),
{
    if s.len() < 4 {
        None
    } else if s[0] == ' ' && s[1] == 'G' && s[2] == 'M' && s[3] == 'T' {
        Some(4)
    } else {
        match gmt_end(s.drop_first()) {
            Some(end) => Some(end + 1),
            None => None,
        }
    }
}

/// The name of the day of the week `day`, counted from Monday as 0.
pub fn weekday_name(day: u8) -> (r: &'static str)
    requires
        day < 7,
    ensures
        r@ == spec_weekday_name(day as int),
{
    proof {
        reveal_strlit("Mon");
        reveal_strlit("Tue");
        reveal_strlit("Wed");
        reveal_strlit("Thu");
        reveal_strlit("Fri");
        reveal_strlit("Sat");
        reveal_strlit("Sun");
    }
    let r = match day {
        0 => "Mon",
        1 => "Tue",
        2 => "Wed",
        3 => "Thu",
        4 => "Fri",
        5 => "Sat",
        _ => "Sun",
    };
    assert(r@ =~= spec_weekday_name(day as int));
    r
}

/// The name of the month `month`, counted from January as 1.
pub fn month_name(month: u8) -> (r: &'static str)
    requires
        1 <= month <= 12,
    ensures
        r@ == spec_month_name(month as int),
{
    proof {
        reveal_strlit("Jan");
        reveal_strlit("Feb");
        reveal_strlit("Mar");
        reveal_strlit("Apr");
        reveal_strlit("May");
        reveal_strlit("Jun");
        reveal_strlit("Jul");
        reveal_strlit("Aug");
        reveal_strlit("Sep");
        reveal_strlit("Oct");
        reveal_strlit("Nov");
        reveal_strlit("Dec");
    }
    let r = match month {
        1 => "Jan",
        2 => "Feb",
        3 => "Mar",
        4 => "Apr",
        5 => "May",
        6 => "Jun",
        7 => "Jul",
        8 => "Aug",
        9 => "Sep",
        10 => "Oct",
        11 => "Nov",
        _ => "Dec",
    };
    assert(r@ =~= spec_month_name(month as int));
    r
}

/// Whether the three characters are the name of a day of the week.
pub fn is_weekday(a: char, b: char, c: char) -> (r: bool)
    ensures
        r == spec_is_weekday(a, b, c),
{
    (a == 'M' && b == 'o' && c == 'n') || (a == 'T' && b == 'u' && c == 'e') || (a == 'W' && b
        == 'e' && c == 'd') || (a == 'T' && b == 'h' && c == 'u') || (a == 'F' && b == 'r' && c
        == 'i') || (a == 'S' && b == 'a' && c == 't') || (a == 'S' && b == 'u' && c == 'n')
}

/// The month that the three characters name, counted from January as 1.
pub fn month_of(a: char, b: char, c: char) -> (r: Option<u8>)
    ensures
        match r {
            Some(month) => spec_month_of(a, b, c) == Some(month as int) && 1 <= month <= 12,
            None => spec_month_of(a, b, c) is None,
        },
{
    if a == 'J' && b == 'a' && c == 'n' {
        Some(1)
    } else if a == 'F' && b == 'e' && c == 'b' {
        Some(2)
    } else if a == 'M' && b == 'a' && c == 'r' {
        Some(3)
    } else if a == 'A' && b == 'p' && c == 'r' {
        Some(4)
    } else if a == 'M' && b == 'a' && c == 'y' {
        Some(5)
    } else if a == 'J' && b == 'u' && c == 'n' {
        Some(6)
    } else if a == 'J' && b == 'u' && c == 'l' {
        Some(7)
    } else if a == 'A' && b == 'u' && c == 'g' {
        Some(8)
    } else if a == 'S' && b == 'e' && c == 'p' {
        Some(9)
    } else if a == 'O' && b == 'c' && c == 't' {
        Some(10)
    } else if a == 'N' && b == 'o' && c == 'v' {
        Some(11)
    } else if a == 'D' && b == 'e' && c == 'c' {
        Some(12)
    } else {
        None
    }
}

/// Writes `date_time` as an HTTP date. Fails exactly when it lies outside
/// the years 0 to 9999.
pub fn format(date_time: &DateTime) -> (r: Result<String, DateTimeFormatError>)
    ensures
        match r {
            Ok(text) => writable(date_time.spec_secs() as int) && text@ == written(
                date_time.spec_secs() as int,
                date_time.spec_subsec_nanos() as nat,
            ),
            Err(_) => !writable(date_time.spec_secs() as int),
        },
{
    let seconds = date_time.secs();
    if seconds < FIRST_SECOND || seconds > LAST_SECOND {
        return Err(DateTimeFormatError::new("HTTP dates support years between 0 and 9999"));
    }
    let at = Civil::from_seconds(seconds);
    let day = day_of_week(at.date.to_day_number());
    proof {
        reveal_strlit(", ");
        reveal_strlit(" ");
        reveal_strlit(":");
        reveal_strlit(" GMT");
        assert(", "@ =~= seq![',', ' ']);
        assert(" "@ =~= seq![' ']);
        assert(":"@ =~= seq![':']);
        assert(" GMT"@ =~= seq![' ', 'G', 'M', 'T']);
    }
    let mut out = String::from_str(weekday_name(day));
    out.append(", ");
    push_padded(&mut out, at.date.day as u64, 2);
    out.append(" ");
    out.append(month_name(at.date.month));
    out.append(" ");
    push_padded(&mut out, at.date.year as u64, 4);
    out.append(" ");
    push_padded(&mut out, at.hour as u64, 2);
    out.append(":");
    push_padded(&mut out, at.minute as u64, 2);
    out.append(":");
    push_padded(&mut out, at.second as u64, 2);
    push_fraction(&mut out, date_time.subsec_nanos() / 1_000_000, 3);
    out.append(" GMT");
    Ok(out)
}

/// Reads `text` as an HTTP date.
pub fn parse(text: &Vec<char>) -> (r: Result<DateTime, DateTimeParseError>)
    ensures
        match r {
            Ok(date_time) => {
                &&& parsed(text@) matches Some(found)
                &&& date_time == DateTime::of_parts(found.0 as i64, found.1 as u32)
                &&& i64::MIN <= found.0 <= i64::MAX
                &&& 0 <= found.1 < 1_000_000_000
            },
            Err(_) => parsed(text@) is None,
        },
{
    let t = trim(text);
    let n = t.len();
    if n < 29 || n > 33 {
        return Err(DateTimeParseError::new("incorrectly shaped string"));
    }
    if !(is_weekday(t[0], t[1], t[2]) && t[3] == ',' && t[4] == ' ' && t[7] == ' ' && t[11] == ' '
        && t[16] == ' ' && t[19] == ':' && t[22] == ':' && t[n - 4] == ' ' && t[n - 3] == 'G' && t[n
        - 2] == 'M' && t[n - 1] == 'T') {
        return Err(DateTimeParseError::new("incorrectly shaped string"));
    }
    let fraction: Option<u32> = if n == 29 {
        Some(0)
    } else if t[25] == '.' {
        parse_fraction(&t, 26, n - 4)
    } else {
        None
    };
    proof {
        reveal_with_fuel(pow10, 5);
    }
    match (
        parse_field(&t, 5, 7),
        month_of(t[8], t[9], t[10]),
        parse_field(&t, 12, 16),
        parse_field(&t, 17, 19),
        parse_field(&t, 20, 22),
        parse_field(&t, 23, 25),
        fraction,
    ) {
        (
            Some(day),
            Some(month),
            Some(year),
            Some(hour),
            Some(minute),
            Some(second),
            Some(nanos),
        ) => {
            if day < 1 || day > super::calendar::month_length(year as i32, month) as u32 || hour
                >= 24 || minute >= 60 || second >= 60 {
                return Err(DateTimeParseError::new("invalid date or time"));
            }
            let at = Civil {
                date: Date { year: year as i32, month, day: day as u8 },
                hour: hour as u8,
                minute: minute as u8,
                second: second as u8,
            };
            Ok(DateTime::from_secs_and_nanos(at.to_seconds(), nanos))
        },
        _ => Err(DateTimeParseError::new("invalid date or time")),
    }
}

/// Finds the end of the first HTTP date in `text`: the index just after the
/// first ` GMT`.
pub fn find_gmt_end(text: &Vec<char>) -> (r: Option<usize>)
    ensures
        match r {
            Some(end) => gmt_end(text@) == Some(end as int) && 4 <= end <= text.len(),
            None => gmt_end(text@) is None,
        },
{
    let mut i: usize = 0;
    assert(text@.skip(0) =~= text@);
    if text.len() < 4 {
        return None;
    }
    while i <= text.len() - 4
        invariant
            4 <= text.len(),
            i <= text.len(),
            gmt_end(text@) == match gmt_end(text@.skip(i as int)) {
                Some(end) => Some(end + i),
                None => None,
            },
        decreases text.len() - i,
    {
        let ghost rest = text@.skip(i as int);
        assert(rest[0] == text[i as int]);
        assert(rest[1] == text[i + 1]);
        assert(rest[2] == text[i + 2]);
        assert(rest[3] == text[i + 3]);
        assert(rest.drop_first() =~= text@.skip(i + 1));
        if text[i] == ' ' && text[i + 1] == 'G' && text[i + 2] == 'M' && text[i + 3] == 'T' {
            return Some(i + 4);
        }
        i += 1;
    }
    None
}

} // verus!
