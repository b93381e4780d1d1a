//! Epoch seconds: the seconds since the Unix epoch written as a decimal
//! number, with the nanoseconds as up to nine fraction digits.

use super::text::{
    all_digits, find_char, fraction_nanos, fraction_text, number, parse_fraction, parse_number,
    position, push_decimal, push_fraction, signed_decimal,
};
use super::DateTimeParseError;
use crate::date_time::DateTime;
use vstd::prelude::*;
use vstd::string::StringExecFns;

verus! {

/// An instant in epoch seconds: the whole seconds with their sign, then the
/// nanoseconds as a fraction. The fraction is written after the whole
/// seconds as they are held, also where these are negative.
pub open spec fn written(seconds: int, nanos: nat) -> Seq<char> {
    signed_decimal(seconds) + fraction_text(nanos, 9)
}

/// The whole seconds that `s` writes: a `+` or `-` sign or none, then at
/// least one digit, for a number that an `i64` holds.
pub open spec fn whole_seconds(s: Seq<char>) -> Option<int> {
    let signed = s.len() > 0 && (s[0] == '-' || s[0] == '+');
    let digits = if signed {
        s.drop_first()
    } else {
        s
    };
    let seconds = if s.len() > 0 && s[0] == '-' {
        -(number(digits) as int)
    } else {
        number(digits) as int
    };
    if digits.len() > 0 && all_digits(digits) && i64::MIN <= seconds <= i64::MAX {
        Some(seconds)
    } else {
        None
    }
}

/// The seconds and nanoseconds that `s` writes in epoch seconds: whole
/// seconds, and after a point, if there is one, the fraction digits.
pub open spec fn parsed(s: Seq<char>) -> Option<(int, int)> {
    let point = position(s, '.');
    match whole_seconds(s.take(point)) {
        None => None,
        Some(seconds) => if point == s.len() {
            Some((seconds, 0int))
        } else {
            match fraction_nanos(s.skip(point + 1)) {
                Some(nanos) => Some((seconds, nanos)),
                None => None,
            }
        },
    }
}

/// Writes `date_time` in epoch seconds.
pub fn format(date_time: &DateTime) -> (r: String)
    ensures
        r@ == written(date_time.spec_secs() as int, date_time.spec_subsec_nanos() as nat),
{
    let seconds = date_time.secs();
    let mut out = String::new();
    if seconds < 0 {
        proof {
            reveal_strlit("-");
        }
        out.append("-");
        assert(out@ =~= seq!['-']);
        let distance: u64 = if seconds == i64::MIN {
            9_223_372_036_854_775_808u64
        } else {
            (-seconds) as u64
        };
        push_decimal(&mut out, distance);
    } else {
        push_decimal(&mut out, seconds as u64);
        assert(out@ =~= signed_decimal(seconds as int));
    }
    push_fraction(&mut out, date_time.subsec_nanos(), 9);
    out
}

fn parse_whole(chars: &Vec<char>, from: usize, to: usize) -> (r: Option<i64>)
    requires
        from <= to <= chars.len(),
    ensures
        match r {
            Some(seconds) => whole_seconds(chars@.subrange(from as int, to as int)) == Some(
                seconds as int,
            ),
            None => whole_seconds(chars@.subrange(from as int, to as int)) is None,
        },
{
    let ghost s = chars@.subrange(from as int, to as int);
    if from == to {
        return None;
    }
    assert(s[0] == chars[from as int]);
    let negative = chars[from] == '-';
    let signed = negative || chars[from] == '+';
    let start = if signed {
        from + 1
    } else {
        from
    };
    proof {
        if signed {
            assert(s.drop_first() =~= chars@.subrange(start as int, to as int));
        } else {
            assert(s =~= chars@.subrange(start as int, to as int));
        }
    }
    match parse_number(chars, start, to) {
        None => None,
        Some(value) => {
            if negative {
                if value > 9_223_372_036_854_775_808u64 {
                    None
                } else if value == 9_223_372_036_854_775_808u64 {
                    Some(i64::MIN)
                } else {
                    Some(-(value as i64))
                }
            } else if value > 9_223_372_036_854_775_807u64 {
                None
            } else {
                Some(value as i64)
            }
        },
    }
}

/// Reads the characters of `chars` from `from` up to `to` as epoch seconds.
pub fn parse(chars: &Vec<char>, from: usize, to: usize) -> (r: Result<DateTime, DateTimeParseError>)
    requires
        from <= to <= chars.len(),
    ensures
        match r {
            Ok(date_time) => {
                &&& parsed(chars@.subrange(from as int, to as int)) matches Some(found)
                &&& date_time == DateTime::of_parts(found.0 as i64, found.1 as u32)
                &&& i64::MIN <= found.0 <= i64::MAX
                &&& 0 <= found.1 < 1_000_000_000
            },
            Err(_) => parsed(chars@.subrange(from as int, to as int)) is None,
        },
{
    let ghost s = chars@.subrange(from as int, to as int);
    let mut point: usize = find_char(chars, from, '.');
    proof {
        super::text::lemma_position(s, '.');
        super::text::lemma_position(chars@.skip(from as int), '.');
        lemma_position_within(chars@, from as int, to as int, '.');
    }
    if point > to {
        point = to;
    }
    assert(point - from == position(s, '.'));
    assert(s.take(point - from) =~= chars@.subrange(from as int, point as int));
    match parse_whole(chars, from, point) {
        None => Err(DateTimeParseError::new("invalid epoch-seconds timestamp")),
        Some(seconds) => {
            if point == to {
                Ok(DateTime::from_secs_and_nanos(seconds, 0))
            } else {
                assert(s.skip(point - from + 1) =~= chars@.subrange(point + 1, to as int));
                match parse_fraction(chars, point + 1, to) {
                    None => Err(DateTimeParseError::new("invalid epoch-seconds fraction")),
                    Some(nanos) => Ok(DateTime::from_secs_and_nanos(seconds, nanos)),
                }
            }
        },
    }
}

/// The first `c` of a part of a sequence is the first `c` at or after the
/// part's start, unless that lies beyond the part's end.
pub proof fn lemma_position_within(s: Seq<char>, from: int, to: int, c: char)
    requires
        0 <= from <= to <= s.len(),
    ensures
        position(s.subrange(from, to), c) == if position(s.skip(from), c) <= to - from {
            position(s.skip(from), c)
        } else {
            to - from
        },
    decreases to - from,
{
    let part = s.subrange(from, to);
    let tail = s.skip(from);
    if from < to {
        assert(part[0] == tail[0]);
        if part[0] != c {
            assert(part.drop_first() =~= s.subrange(from + 1, to));
            assert(tail.drop_first() =~= s.skip(from + 1));
            lemma_position_within(s, from + 1, to, c);
        }
    } else {
        super::text::lemma_position(tail, c);
    }
}

} // verus!
