//! RFC 3339 date-times, as in `1985-04-12T23:20:50.52Z`.

use super::calendar::{days_in_month, month_length, Civil, Date, FIRST_SECOND, LAST_SECOND};
use super::text::{
    digit_value, field_value, find_char, fraction_nanos, fraction_text, padded, parse_field,
    parse_fraction, position, pow10, push_fraction, push_padded, spec_digit_value,
};
use super::{DateTimeFormatError, DateTimeParseError};
use crate::date_time::DateTime;
use vstd::prelude::*;
use vstd::string::StringExecFns;

verus! {

/// Whether a date-time may be given with an offset from UTC.
#[derive(Clone, Copy, Debug, PartialEq, Eq, Structural)]
pub enum AllowOffsets {
    /// The zone may be `Z` or an offset such as `+01:00`.
    OffsetsAllowed,
    /// The zone must be `Z`.
    OffsetsForbidden,
}

/// Whether the format can write the second `seconds`: it writes the years 0
/// to 9999.
pub open spec fn writable(seconds: int) -> bool {
    FIRST_SECOND <= seconds <= LAST_SECOND
}

/// An instant as an RFC 3339 date-time in UTC: the date, `T`, the time of
/// day, the microseconds as a fraction if there are any, and `Z`. What lies
/// below a microsecond is not written.
pub open spec fn written(seconds: int, nanos: nat) -> Seq<char> {
    let at = Civil::of_seconds(seconds);
    padded(at.date.year as nat, 4) + seq!['-'] + padded(at.date.month as nat, 2) + seq!['-']
        + padded(at.date.day as nat, 2) + seq!['T'] + padded(at.hour as nat, 2) + seq![':']
        + padded(at.minute as nat, 2) + seq![':'] + padded(at.second as nat, 2) + fraction_text(
        nanos / 1_000,
        6,
    ) + seq!['Z']
}

/// The number of digits that `s` begins with.
pub open spec fn leading_digits(s: Seq<char>) -> int
    decreases s.len(),
{
    if s.len() > 0 && spec_digit_value(s[0]) is Some {
        1 + leading_digits(s.drop_first())
    } else {
        0
    }
}

/// The offset from UTC, in seconds, that the zone `zone` gives: none for
/// `Z`; for `+hh:mm` or `-hh:mm`, where offsets are allowed, that many hours
/// and minutes east or west. A lower-case `z` counts as an offset of none.
pub open spec fn zone_offset(zone: Seq<char>, offsets: AllowOffsets) -> Option<int> {
    if zone.len() == 1 && zone[0] == 'Z' {
        Some(0)
    } else if offsets == AllowOffsets::OffsetsForbidden {
        None
    } else if zone.len() == 1 && zone[0] == 'z' {
        Some(0)
    } else if zone.len() == 6 && (zone[0] == '+' || zone[0] == '-') && zone[3] == ':' {
        match (field_value(zone.subrange(1, 3)), field_value(zone.subrange(4, 6))) {
            (Some(hours), Some(minutes)) => if hours < 24 && minutes < 60 {
                if zone[0] == '-' {
                    Some(-(hours * 3_600 + minutes * 60))
                } else {
                    Some(hours * 3_600 + minutes * 60)
                }
            } else {
                None
            },
            _ => None,
        }
    } else {
        None
    }
}

/// The seconds and nanoseconds that `s` writes as an RFC 3339 date-time:
/// `yyyy-mm-ddThh:mm:ss`, then a point and fraction digits if there are
/// any, then the zone. Of the fraction digits the first nine count. The day
/// must be one of the month's and the time one of the day's; a time given
/// with an offset is that much later or earlier in UTC.
pub open spec fn parsed(s: Seq<char>, offsets: AllowOffsets) -> Option<(int, int)> {
    if s.len() < 20 {
        None
    } else if !{
        &&& s[4] == '-'
        &&& s[7] == '-'
        &&& (s[10] == 'T' || s[10] == 't')
        &&& s[13] == ':'
        &&& s[16] == ':'
    } {
        None
    } else {
        let digits = if s[19] == '.' {
            leading_digits(s.skip(20))
        } else {
            0
        };
        let fraction: Option<int> = if s[19] == '.' {
            fraction_nanos(
                s.subrange(
                    20,
                    20 + if digits > 9 {
                        9
                    } else {
                        digits
                    },
                ),
            )
        } else {
            Some(0int)
        };
        let zone = if s[19] == '.' {
            s.skip(20 + digits)
        } else {
            s.skip(19)
        };
        match (
            field_value(s.subrange(0, 4)),
            field_value(s.subrange(5, 7)),
            field_value(s.subrange(8, 10)),
            field_value(s.subrange(11, 13)),
            field_value(s.subrange(14, 16)),
            field_value(s.subrange(17, 19)),
            fraction,
            zone_offset(zone, offsets),
        ) {
            (
                Some(year),
                Some(month),
                Some(day),
                Some(hour),
                Some(minute),
                Some(second),
                Some(nanos),
                Some(offset),
            ) => {
                let at = Civil {
                    date: Date { year: year as i32, month: month as u8, day: day as u8 },
                    hour: hour as u8,
                    minute: minute as u8,
                    second: second as u8,
                };
                if 1 <= month <= 12 && 1 <= day <= days_in_month(year, month) && hour < 24
                    && minute < 60 && second < 60 {
                    Some((at.seconds() - offset, nanos))
                } else {
                    None
                }
            },
            _ => None,
        }
    }
}

/// The end of the first date-time in `s`: the index just after the first
/// `Z`, or the length of `s` where there is none.
pub open spec fn zulu_end(s: Seq<char>) -> int {
    if position(s, 'Z') < s.len() {
        position(s, 'Z') + 1
    } else {
        s.len() as int
    }
}

/// Writes `date_time` as an RFC 3339 date-time in UTC. Fails exactly when
/// it lies outside the years 0 to 9999.
pub fn format(date_time: &DateTime) -> (r: Result<String, DateTimeFormatError>)
    ensures
        match r {
            Ok(text) => writable(date_time.spec_secs() as int) && text@ == written(
                date_time.spec_secs() as int,
                date_time.spec_subsec_nanos() as nat,
            ),
            Err(_) => !writable(date_time.spec_secs() as int),
        },
{
    let seconds = date_time.secs();
    if seconds < FIRST_SECOND || seconds > LAST_SECOND {
        return Err(
            DateTimeFormatError::new("RFC-3339 timestamps support years between 0 and 9999"),
        );
    }
    let at = Civil::from_seconds(seconds);
    proof {
        reveal_strlit("-");
        reveal_strlit("T");
        reveal_strlit(":");
        reveal_strlit("Z");
        assert("-"@ =~= seq!['-']);
        assert("T"@ =~= seq!['T']);
        assert(":"@ =~= seq![':']);
        assert("Z"@ =~= seq!['Z']);
    }
    let mut out = String::new();
    push_padded(&mut out, at.date.year as u64, 4);
    assert(out@ =~= padded(at.date.year as nat, 4));
    out.append("-");
    push_padded(&mut out, at.date.month as u64, 2);
    out.append("-");
    push_padded(&mut out, at.date.day as u64, 2);
    out.append("T");
    push_padded(&mut out, at.hour as u64, 2);
    out.append(":");
    push_padded(&mut out, at.minute as u64, 2);
    out.append(":");
    push_padded(&mut out, at.second as u64, 2);
    push_fraction(&mut out, date_time.subsec_nanos() / 1_000, 6);
    out.append("Z");
    Ok(out)
}

/// The number of digits in `text` from `from` on.
fn count_digits(text: &Vec<char>, from: usize) -> (r: usize)
    requires
        from <= text.len(),
    ensures
        r == leading_digits(text@.skip(from as int)),
        from + r <= text.len(),
{
    let mut i: usize = from;
    while i < text.len()
        invariant
            from <= i <= text.len(),
            leading_digits(text@.skip(from as int)) == (i - from) + leading_digits(
                text@.skip(i as int),
            ),
        decreases text.len() - i,
    {
        let ghost rest = text@.skip(i as int);
        assert(rest[0] == text[i as int]);
        assert(rest.drop_first() =~= text@.skip(i + 1));
        if digit_value(text[i]).is_none() {
            return i - from;
        }
        i += 1;
    }
    assert(text@.skip(i as int).len() == 0);
    i - from
}

/// Reads the characters of `text` from `from` on as a zone.
fn parse_zone(text: &Vec<char>, from: usize, offsets: AllowOffsets) -> (r: Option<i64>)
    requires
        from <= text.len(),
    ensures
        match r {
            Some(offset) => zone_offset(text@.skip(from as int), offsets) == Some(offset as int)
                && -86_400 < offset < 86_400,
            None => zone_offset(text@.skip(from as int), offsets) is None,
        },
{
    let ghost zone = text@.skip(from as int);
    let n = text.len() - from;
    if n == 1 && text[from] == 'Z' {
        assert(zone[0] == text[from as int]);
        return Some(0);
    }
    proof {
        if n >= 1 {
            assert(zone[0] == text[from as int]);
        }
    }
    match offsets {
        AllowOffsets::OffsetsForbidden => None,
        AllowOffsets::OffsetsAllowed => {
            if n == 1 && text[from] == 'z' {
                Some(0)
            } else if n == 6 && (text[from] == '+' || text[from] == '-') && text[from + 3] == ':' {
                assert(zone[3] == text[from + 3]);
                assert(zone.subrange(1, 3) =~= text@.subrange(from + 1, from + 3));
                assert(zone.subrange(4, 6) =~= text@.subrange(from + 4, from + 6));
                proof {
                    reveal_with_fuel(pow10, 3);
                }
                match (parse_field(text, from + 1, from + 3), parse_field(text, from + 4, from + 6)) {
                    (Some(hours), Some(minutes)) => {
                        if hours < 24 && minutes < 60 {
                            let distance: i64 = hours as i64 * 3_600 + minutes as i64 * 60;
                            if text[from] == '-' {
                                Some(-distance)
                            } else {
                                Some(distance)
                            }
                        } else {
                            None
                        }
                    },
                    _ => None,
                }
            } else {
                proof {
                    if n == 6 {
                        assert(zone[3] == text[from + 3]);
                    }
                }
                None
            }
        },
    }
}

/// Reads `text` as an RFC 3339 date-time.
pub fn parse(text: &Vec<char>, offsets: AllowOffsets) -> (r: Result<DateTime, DateTimeParseError>)
    ensures
        match r {
            Ok(date_time) => {
                &&& parsed(text@, offsets) matches Some(found)
                &&& date_time == DateTime::of_parts(found.0 as i64, found.1 as u32)
                &&& i64::MIN <= found.0 <= i64::MAX
                &&& 0 <= found.1 < 1_000_000_000
            },
            Err(_) => parsed(text@, offsets) is None,
        },
{
    let n = text.len();
    if n < 20 {
        return Err(DateTimeParseError::new("invalid RFC-3339 date-time"));
    }
    if !(text[4] == '-' && text[7] == '-' && (text[10] == 'T' || text[10] == 't') && text[13] == ':'
        && text[16] == ':') {
        return Err(
            DateTimeParseError::new(
                "RFC-3339 only allows `T` as a separator for date-time values",
            ),
        );
    }
    let has_fraction = text[19] == '.';
    let digits: usize = if has_fraction {
        count_digits(text, 20)
    } else {
        0
    };
    let fraction: Option<u32> = if has_fraction {
        parse_fraction(
            text,
            20,
            20 + if digits > 9 {
                9
            } else {
                digits
            },
        )
    } else {
        Some(0)
    };
    let zone_start: usize = if has_fraction {
        20 + digits
    } else {
        19
    };
    let zone = parse_zone(text, zone_start, offsets);
    proof {
        reveal_with_fuel(pow10, 5);
    }
    match (
        parse_field(text, 0, 4),
        parse_field(text, 5, 7),
        parse_field(text, 8, 10),
        parse_field(text, 11, 13),
        parse_field(text, 14, 16),
        parse_field(text, 17, 19),
        fraction,
        zone,
    ) {
        (
            Some(year),
            Some(month),
            Some(day),
            Some(hour),
            Some(minute),
            Some(second),
            Some(nanos),
            Some(offset),
        ) => {
            if month < 1 || month > 12 || hour >= 24 || minute >= 60 || second >= 60 {
                return Err(DateTimeParseError::new("invalid RFC-3339 date-time"));
            }
            if day < 1 || day > month_length(year as i32, month as u8) as u32 {
                return Err(DateTimeParseError::new("invalid RFC-3339 date-time"));
            }
            let at = Civil {
                date: Date { year: year as i32, month: month as u8, day: day as u8 },
                hour: hour as u8,
                minute: minute as u8,
                second: second as u8,
            };
            Ok(DateTime::from_secs_and_nanos(at.to_seconds() - offset, nanos))
        },
        _ => Err(DateTimeParseError::new("invalid RFC-3339 date-time")),
    }
}

/// Finds the end of the first date-time in `text`: the index just after the
/// first `Z`, or the length of `text` where there is none.
pub fn find_zulu_end(text: &Vec<char>) -> (r: usize)
    ensures
        r == zulu_end(text@),
        r <= text.len(),
{
    assert(text@.skip(0) =~= text@);
    let at = find_char(text, 0, 'Z');
    if at < text.len() {
        at + 1
    } else {
        at
    }
}

} // verus!
