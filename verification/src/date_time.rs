//! `DateTime`: a point in time as whole seconds and sub-second nanoseconds
//! since the Unix epoch (January 1, 1970 at midnight UTC).

use num_integer::Integer;
use vstd::prelude::*;

pub mod format;
pub mod order;
pub mod system_time;

pub use self::format::DateTimeFormatError;
pub use self::format::DateTimeParseError;

verus! {

pub const MILLIS_PER_SECOND: i64 = 1000;

pub const NANOS_PER_MILLI: u32 = 1_000_000;

pub const NANOS_PER_SECOND: i128 = 1_000_000_000;

pub const NANOS_PER_SECOND_U32: u32 = 1_000_000_000;

/// A point in time, held as seconds since the Unix epoch and the nanoseconds
/// past that second. The nanoseconds always stay below one second, so each
/// instant has exactly one representation.
#[derive(Debug, PartialEq, Eq, Structural, Hash, Clone, Copy, Ord)]
pub struct DateTime {
    seconds: i64,
    subsecond_nanos: u32,
}

/// Failure to convert a `DateTime` to or from another type.
#[derive(Debug)]
#[non_exhaustive]
pub struct ConversionError(&'static str);

impl ConversionError {
    /// What the error says.
    pub closed spec fn spec_message(&self) -> &'static str {
        self.0
    }

    /// What the error says.
    pub fn message(&self) -> (r: &'static str)
        ensures
            r == self.spec_message(),
    {
        self.0
    }
}

/// Formats for representing a `DateTime` in the Smithy protocols.
#[derive(Clone, Copy, Debug, PartialEq, Eq, Structural)]
pub enum Format {
    /// RFC-3339 Date Time. If the date time has an offset, an error will be returned
    DateTime,
    /// RFC-3339 Date Time. Offsets are supported
    DateTimeWithOffset,
    /// Date format used by the HTTP `Date` header, specified in RFC-7231.
    HttpDate,
    /// Number of seconds since the Unix epoch formatted as a floating point.
    EpochSeconds,
}

/// Floored division and remainder of `x` by a positive `y`, from
/// `num_integer::div_mod_floor`. Trusted: the quotient is rounded towards
/// negative infinity and the remainder lies in `0..y`, which for a positive
/// divisor is what `/` and `%` mean on mathematical integers.
#[verifier::external_body]
fn div_mod_floor_i64(x: i64, y: i64) -> (r: (i64, i64))
    requires
        y > 0,
    ensures
        r.0 == x as int / y as int,
        r.1 == x as int % y as int,
{
    num_integer::div_mod_floor(x, y)
}

/// Floored division and remainder of `x` by a positive `y`, from the method
/// `Integer::div_mod_floor` on `i128`. Trusted: as for the `i64` function, the
/// quotient is the floor of the exact quotient and the remainder lies in `0..y`.
#[verifier::external_body]
fn div_mod_floor_i128(x: i128, y: i128) -> (r: (i128, i128))
    requires
        y > 0,
    ensures
        r.0 == x as int / y as int,
        r.1 == x as int % y as int,
{
    x.div_mod_floor(&y)
}

/// Floored division of `x` by a positive `y`, from the method
/// `Integer::div_floor` on `i64`. Trusted: the result is the floor of the exact
/// quotient.
#[verifier::external_body]
fn div_floor_i64(x: i64, y: i64) -> (r: i64)
    requires
        y > 0,
    ensures
        r == x as int / y as int,
{
    Integer::div_floor(&x, &y)
}

impl View for DateTime {
    type V = int;

    /// The instant as a count of nanoseconds since the Unix epoch.
    closed spec fn view(&self) -> int {
        self.seconds * 1_000_000_000 + self.subsecond_nanos
    }
}

impl DateTime {
    /// Every `DateTime` keeps its nanoseconds below one second.
    #[verifier::type_invariant]
    pub closed spec fn wf(self) -> bool {
        self.subsecond_nanos < 1_000_000_000
    }

    /// The value with the given parts; meaningful where `nanos` is below one
    /// second.
    pub closed spec fn of_parts(seconds: i64, nanos: u32) -> DateTime {
        DateTime { seconds, subsecond_nanos: nanos }
    }

    /// The whole seconds since the epoch, rounded towards negative infinity.
    pub closed spec fn spec_secs(self) -> i64 {
        self.seconds
    }

    /// The nanoseconds past the whole second.
    pub closed spec fn spec_subsec_nanos(self) -> u32 {
        self.subsecond_nanos
    }

    /// The parts of a value are the floored quotient and the remainder of its
    /// nanosecond count by one second, and two well-formed values with the
    /// same count are the same value.
    pub proof fn lemma_parts(self)
        requires
            self.wf(),
        ensures
            self.spec_secs() == self@ / 1_000_000_000,
            self.spec_subsec_nanos() == self@ % 1_000_000_000,
            self.spec_subsec_nanos() < 1_000_000_000,
            self == DateTime::of_parts(self.spec_secs(), self.spec_subsec_nanos()),
            i64::MIN * 1_000_000_000 <= self@ < (i64::MAX + 1) * 1_000_000_000,
    {
    }

    /// What `of_parts` builds is well formed and holds the parts it was given.
    pub proof fn lemma_of_parts(seconds: i64, nanos: u32)
        requires
            nanos < 1_000_000_000,
        ensures
            DateTime::of_parts(seconds, nanos).wf(),
            DateTime::of_parts(seconds, nanos)@ == seconds * 1_000_000_000 + nanos,
            DateTime::of_parts(seconds, nanos).spec_secs() == seconds,
            DateTime::of_parts(seconds, nanos).spec_subsec_nanos() == nanos,
    {
    }

    /// Two well-formed values that stand for the same instant are equal.
    pub proof fn lemma_view_injective(a: DateTime, b: DateTime)
        requires
            a.wf(),
            b.wf(),
            a@ == b@,
        ensures
            a == b,
    {
    }

    /// Creates a `DateTime` from a number of seconds since the Unix epoch.
    pub fn from_secs(epoch_seconds: i64) -> (r: Self)
        ensures
            r == DateTime::of_parts(epoch_seconds, 0),
            r@ == epoch_seconds * 1_000_000_000,
            r.spec_secs() == epoch_seconds,
            r.spec_subsec_nanos() == 0,
    {
        DateTime { seconds: epoch_seconds, subsecond_nanos: 0 }
    }

    /// Creates a `DateTime` from a number of milliseconds since the Unix epoch.
    pub fn from_millis(epoch_millis: i64) -> (r: Self)
        ensures
            r@ == epoch_millis * 1_000_000,
    {
        let (seconds, millis) = div_mod_floor_i64(epoch_millis, MILLIS_PER_SECOND);
        DateTime::from_secs_and_nanos(seconds, millis as u32 * NANOS_PER_MILLI)
    }

    /// Creates a `DateTime` from a number of nanoseconds since the Unix epoch.
    /// Fails exactly when the whole seconds do not fit in an `i64`.
    pub fn from_nanos(epoch_nanos: i128) -> (r: Result<Self, ConversionError>)
        ensures
            r is Ok <==> i64::MIN * 1_000_000_000 <= epoch_nanos < (i64::MAX + 1) * 1_000_000_000,
            r matches Ok(d) ==> d@ == epoch_nanos,
    {
        let (seconds, subsecond_nanos) = div_mod_floor_i128(epoch_nanos, NANOS_PER_SECOND);
        match i64::try_from(seconds) {
            Ok(seconds) => Ok(DateTime { seconds, subsecond_nanos: subsecond_nanos as u32 }),
            Err(_) => Err(
                ConversionError("given epoch nanos are too large to fit into a DateTime"),
            ),
        }
    }

    /// Returns the number of nanoseconds since the Unix epoch that this `DateTime` represents.
    pub fn as_nanos(&self) -> (r: i128)
        ensures
            r == self@,
    {
        let seconds = self.seconds as i128 * NANOS_PER_SECOND;
        if seconds < 0 {
            let adjusted_nanos = self.subsecond_nanos as i128 - NANOS_PER_SECOND;
            seconds + NANOS_PER_SECOND + adjusted_nanos
        } else {
            seconds + self.subsecond_nanos as i128
        }
    }

    /// Creates a `DateTime` from a number of seconds and sub-second nanos since the Unix epoch.
    pub fn from_secs_and_nanos(seconds: i64, subsecond_nanos: u32) -> (r: Self)
        requires
            subsecond_nanos < 1_000_000_000,
        ensures
            r == DateTime::of_parts(seconds, subsecond_nanos),
            r@ == seconds * 1_000_000_000 + subsecond_nanos,
            r.spec_secs() == seconds,
            r.spec_subsec_nanos() == subsecond_nanos,
    {
        DateTime { seconds, subsecond_nanos }
    }

    /// Returns true if sub-second nanos is greater than zero.
    pub fn has_subsec_nanos(&self) -> (r: bool)
        ensures
            r == (self.spec_subsec_nanos() != 0),
            r == (self@ % 1_000_000_000 != 0),
    {
        proof {
            use_type_invariant(self);
        }
        self.subsecond_nanos != 0
    }

    /// Returns the epoch seconds component of the `DateTime`.
    ///
    /// _Note: this does not include the sub-second nanos._
    pub fn secs(&self) -> (r: i64)
        ensures
            r == self.spec_secs(),
            r == self@ / 1_000_000_000,
    {
        proof {
            use_type_invariant(self);
        }
        self.seconds
    }

    /// Returns the sub-second nanos component of the `DateTime`.
    ///
    /// _Note: this does not include the number of seconds since the epoch._
    pub fn subsec_nanos(&self) -> (r: u32)
        ensures
            r == self.spec_subsec_nanos(),
            r == self@ % 1_000_000_000,
            r < 1_000_000_000,
    {
        proof {
            use_type_invariant(self);
        }
        self.subsecond_nanos
    }

    /// Converts the `DateTime` to the number of milliseconds since the Unix epoch,
    /// rounded towards negative infinity.
    ///
    /// This is fallible since `DateTime` holds more precision than an `i64`, and will
    /// return a `ConversionError` for `DateTime` values that can't be converted.
    pub fn to_millis(self) -> (r: Result<i64, ConversionError>)
        ensures
            r is Ok <==> i64::MIN <= self@ / 1_000_000 <= i64::MAX,
            r matches Ok(millis) ==> millis == self@ / 1_000_000,
    {
        proof {
            use_type_invariant(self);
        }
        let subsec_millis = div_floor_i64(self.subsecond_nanos as i64, NANOS_PER_MILLI as i64);
        let millis = if self.seconds < 0 {
            match self.seconds.checked_add(1) {
                Some(seconds) => match seconds.checked_mul(MILLIS_PER_SECOND) {
                    Some(millis) => millis.checked_sub(1000 - subsec_millis),
                    None => None,
                },
                None => None,
            }
        } else {
            match self.seconds.checked_mul(MILLIS_PER_SECOND) {
                Some(millis) => millis.checked_add(subsec_millis),
                None => None,
            }
        };
        match millis {
            Some(millis) => Ok(millis),
            None => Err(ConversionError("DateTime value too large to fit into i64 epoch millis")),
        }
    }
}

} // verus!
