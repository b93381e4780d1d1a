//! The textual formats of a `DateTime`.

pub mod calendar;
pub mod epoch_seconds;
pub mod http_date;
pub mod rfc3339;
pub mod text;

use super::{DateTime, Format};
use rfc3339::AllowOffsets;
use text::{copy_range, find_char, position, to_chars};
use vstd::prelude::*;
use vstd::string::StrSliceExecFns;

verus! {

/// Failure to parse a `DateTime` from a string.
#[derive(Debug)]
#[non_exhaustive]
pub struct DateTimeParseError {
    message: &'static str,
}

impl DateTimeParseError {
    /// The error that says `message`.
    pub fn new(message: &'static str) -> (r: Self)
        ensures
            r.spec_message() == message,
    {
        DateTimeParseError { message }
    }

    /// What the error says.
    pub closed spec fn spec_message(&self) -> &'static str {
        self.message
    }

    /// What the error says.
    pub fn message(&self) -> (r: &'static str)
        ensures
            r == self.spec_message(),
    {
        self.message
    }
}

/// Failure to format a `DateTime` to a string: the format cannot write the
/// instant.
#[derive(Debug)]
#[non_exhaustive]
pub struct DateTimeFormatError {
    message: &'static str,
}

impl DateTimeFormatError {
    /// The error that says `message`.
    pub fn new(message: &'static str) -> (r: Self)
        ensures
            r.spec_message() == message,
    {
        DateTimeFormatError { message }
    }

    /// What the error says.
    pub closed spec fn spec_message(&self) -> &'static str {
        self.message
    }

    /// What the error says.
    pub fn message(&self) -> (r: &'static str)
        ensures
            r == self.spec_message(),
    {
        self.message
    }
}

/// The seconds and nanoseconds that `s` writes in `format`, if it is a
/// date-time of that format.
pub open spec fn parsed(s: Seq<char>, format: Format) -> Option<(int, int)> {
    match format {
        Format::DateTime => rfc3339::parsed(s, AllowOffsets::OffsetsForbidden),
        Format::DateTimeWithOffset => rfc3339::parsed(s, AllowOffsets::OffsetsAllowed),
        Format::HttpDate => http_date::parsed(s),
        Format::EpochSeconds => epoch_seconds::parsed(s),
    }
}

/// The instant of `seconds` and `nanos` written in `format`; `None` where
/// the format cannot write it.
pub open spec fn written(seconds: int, nanos: nat, format: Format) -> Option<Seq<char>> {
    match format {
        Format::DateTime | Format::DateTimeWithOffset => if rfc3339::writable(seconds) {
            Some(rfc3339::written(seconds, nanos))
        } else {
            None
        },
        Format::HttpDate => if http_date::writable(seconds) {
            Some(http_date::written(seconds, nanos))
        } else {
            None
        },
        Format::EpochSeconds => Some(epoch_seconds::written(seconds, nanos)),
    }
}

/// Where the first date-time of `s` ends: after the first `Z` for RFC 3339,
/// after the first ` GMT` for an HTTP date, before the first delimiter for
/// epoch seconds.
pub open spec fn first_end(s: Seq<char>, format: Format, delim: char) -> Option<int> {
    match format {
        Format::DateTime | Format::DateTimeWithOffset => Some(rfc3339::zulu_end(s)),
        Format::HttpDate => http_date::gmt_end(s),
        Format::EpochSeconds => Some(position(s, delim)),
    }
}

/// The first date-time of `s` and what follows it: the date-time must be
/// one of `format`, and be followed by the end of `s` or by `delim`, after
/// which the rest begins.
pub open spec fn read_first(s: Seq<char>, format: Format, delim: char) -> Option<
    ((int, int), Seq<char>),
> {
    match first_end(s, format, delim) {
        None => None,
        Some(end) => match parsed(s.take(end), format) {
            None => None,
            Some(found) => if end == s.len() {
                Some((found, Seq::empty()))
            } else if s[end] == delim {
                Some((found, s.skip(end + 1)))
            } else {
                None
            },
        },
    }
}

/// Whether `s` begins with a date-time of `format` that is followed by a
/// character other than `delim`.
pub open spec fn misses_delimiter(s: Seq<char>, format: Format, delim: char) -> bool {
    match first_end(s, format, delim) {
        None => false,
        Some(end) => parsed(s.take(end), format) is Some && end < s.len() && s[end] != delim,
    }
}

fn parse_chars(text: &Vec<char>, format: Format) -> (r: Result<DateTime, DateTimeParseError>)
    ensures
        match r {
            Ok(date_time) => {
                &&& parsed(text@, format) matches Some(found)
                &&& date_time == DateTime::of_parts(found.0 as i64, found.1 as u32)
                &&& i64::MIN <= found.0 <= i64::MAX
                &&& 0 <= found.1 < 1_000_000_000
            },
            Err(_) => parsed(text@, format) is None,
        },
{
    match format {
        Format::DateTime => rfc3339::parse(text, AllowOffsets::OffsetsForbidden),
        Format::DateTimeWithOffset => rfc3339::parse(text, AllowOffsets::OffsetsAllowed),
        Format::HttpDate => http_date::parse(text),
        Format::EpochSeconds => {
            assert(text@.subrange(0, text@.len() as int) =~= text@);
            epoch_seconds::parse(text, 0, text.len())
        },
    }
}

impl DateTime {
    /// Parses a `DateTime` from a string using the given `format`.
    pub fn from_str(s: &str, format: Format) -> (r: Result<Self, DateTimeParseError>)
        ensures
            match r {
                Ok(date_time) => {
                    &&& parsed(s@, format) matches Some(found)
                    &&& date_time == DateTime::of_parts(found.0 as i64, found.1 as u32)
                    &&& i64::MIN <= found.0 <= i64::MAX
                    &&& 0 <= found.1 < 1_000_000_000
                },
                Err(_) => parsed(s@, format) is None,
            },
    {
        let text = to_chars(s);
        parse_chars(&text, format)
    }

    /// Read 1 date of `format` from `s`, expecting either `delim` or EOF
    ///
    /// Enable parsing multiple dates from the same string. A date that is
    /// followed by another character than `delim` is an error that says so,
    /// and so is an HTTP date without its ` GMT`.
    pub fn read<'a>(s: &'a str, format: Format, delim: char) -> (r: Result<
        (Self, &'a str),
        DateTimeParseError,
    >)
        ensures
            match r {
                Ok((date_time, rest)) => {
                    &&& read_first(s@, format, delim) matches Some(found)
                    &&& date_time == DateTime::of_parts(found.0.0 as i64, found.0.1 as u32)
                    &&& rest@ == found.1
                    &&& i64::MIN <= found.0.0 <= i64::MAX
                    &&& 0 <= found.0.1 < 1_000_000_000
                },
                Err(error) => {
                    &&& read_first(s@, format, delim) is None
                    &&& misses_delimiter(s@, format, delim) ==> error.spec_message()
                        == "didn't find expected delimiter"
                    &&& first_end(s@, format, delim) is None ==> error.spec_message()
                        == "date-time is not GMT"
                },
            },
    {
        let text = to_chars(s);
        let end: usize = match format {
            Format::DateTime | Format::DateTimeWithOffset => rfc3339::find_zulu_end(&text),
            Format::HttpDate => match http_date::find_gmt_end(&text) {
                Some(end) => end,
                None => {
                    return Err(DateTimeParseError::new("date-time is not GMT"));
                },
            },
            Format::EpochSeconds => {
                assert(text@.skip(0) =~= text@);
                find_char(&text, 0, delim)
            },
        };
        let head = copy_range(&text, 0, end);
        assert(head@ =~= s@.take(end as int));
        let date_time = match parse_chars(&head, format) {
            Ok(date_time) => date_time,
            Err(error) => {
                return Err(error);
            },
        };
        if end == text.len() {
            let rest = s.substring_char(end, end);
            assert(rest@ =~= Seq::<char>::empty());
            Ok((date_time, rest))
        } else if text[end] == delim {
            let rest = s.substring_char(end + 1, text.len());
            assert(rest@ =~= s@.skip(end + 1));
            Ok((date_time, rest))
        } else {
            Err(DateTimeParseError::new("didn't find expected delimiter"))
        }
    }

    /// Formats the `DateTime` to a string using the given `format`.
    ///
    /// Returns an error if the given `DateTime` cannot be represented by the desired format.
    pub fn fmt(&self, format: Format) -> (r: Result<String, DateTimeFormatError>)
        ensures
            match r {
                Ok(text) => written(
                    self.spec_secs() as int,
                    self.spec_subsec_nanos() as nat,
                    format,
                ) == Some(text@),
                Err(_) => written(self.spec_secs() as int, self.spec_subsec_nanos() as nat, format)
                    is None,
            },
    {
        match format {
            Format::DateTime | Format::DateTimeWithOffset => rfc3339::format(self),
            Format::EpochSeconds => Ok(epoch_seconds::format(self)),
            Format::HttpDate => http_date::format(self),
        }
    }
}

} // verus!
