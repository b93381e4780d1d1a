//! Conversions between `DateTime` and the standard library's `SystemTime`.

use super::{ConversionError, DateTime, NANOS_PER_SECOND_U32};
use std::time::{Duration, SystemTime, UNIX_EPOCH};
use vstd::prelude::*;
use vstd::std_specs::convert::{FromSpecImpl, TryFromSpecImpl};

verus! {

#[verifier::external_type_specification]
#[verifier::external_body]
pub struct ExSystemTime(std::time::SystemTime);

/// The distance of an instant from the Unix epoch, with its direction: the
/// plain values that a `std::time::Duration` before or after `UNIX_EPOCH`
/// holds.
#[derive(Clone, Copy, Debug, PartialEq, Eq, Structural)]
pub struct EpochOffset {
    /// Whether the instant lies before the epoch.
    pub before_epoch: bool,
    /// The whole seconds of the distance.
    pub secs: u64,
    /// The nanoseconds of the distance beyond the whole seconds.
    pub subsec_nanos: u32,
}

impl View for EpochOffset {
    type V = int;

    /// The instant as a count of nanoseconds since the Unix epoch, negative
    /// before it.
    open spec fn view(&self) -> int {
        if self.before_epoch {
            -(self.secs * 1_000_000_000 + self.subsec_nanos)
        } else {
            self.secs * 1_000_000_000 + self.subsec_nanos
        }
    }
}

/// The instant that lies `secs` seconds and `nanos` nanoseconds after the
/// epoch, from `SystemTime::checked_add` on `UNIX_EPOCH`. Trusted: the call
/// does not panic for nanoseconds below one second. Which distances a
/// `SystemTime` can hold depends on the platform, so nothing is said of when
/// the result is `None`.
#[verifier::external_body]
fn epoch_plus(secs: u64, nanos: u32) -> (r: Option<SystemTime>)
    requires
        nanos < 1_000_000_000,
{
    UNIX_EPOCH.checked_add(Duration::new(secs, nanos))
}

/// The instant that lies `secs` seconds and `nanos` nanoseconds before the
/// epoch, from `SystemTime::checked_sub` on `UNIX_EPOCH`. Trusted: the call
/// does not panic for nanoseconds below one second. Nothing is said of when
/// the result is `None`.
#[verifier::external_body]
fn epoch_minus(secs: u64, nanos: u32) -> (r: Option<SystemTime>)
    requires
        nanos < 1_000_000_000,
{
    UNIX_EPOCH.checked_sub(Duration::new(secs, nanos))
}

/// The distance of `time` from the epoch, from `SystemTime::duration_since`:
/// the duration it returns for an instant at or after the epoch, the one
/// that its error holds for an instant before it. Trusted: the nanoseconds
/// of a `Duration` beyond its whole seconds are below one second.
#[verifier::external_body]
fn offset_from_epoch(time: SystemTime) -> (r: EpochOffset)
    ensures
        r.subsec_nanos < 1_000_000_000,
{
    match time.duration_since(UNIX_EPOCH) {
        Ok(after) => EpochOffset {
            before_epoch: false,
            secs: after.as_secs(),
            subsec_nanos: after.subsec_nanos(),
        },
        Err(before) => EpochOffset {
            before_epoch: true,
            secs: before.duration().as_secs(),
            subsec_nanos: before.duration().subsec_nanos(),
        },
    }
}

impl DateTime {
    /// The earliest instant that a `DateTime` can hold.
    pub fn earliest() -> (r: DateTime)
        ensures
            r@ == i64::MIN * 1_000_000_000,
    {
        DateTime::from_secs_and_nanos(i64::MIN, 0)
    }

    /// The latest instant that a `DateTime` can hold.
    pub fn latest() -> (r: DateTime)
        ensures
            r@ == i64::MAX * 1_000_000_000 + 999_999_999,
    {
        DateTime::from_secs_and_nanos(i64::MAX, 999_999_999)
    }

    /// The distance of this instant from the epoch, and its direction. An
    /// instant before the epoch with nanoseconds past its whole second lies
    /// one second less, and the rest of a second, before the epoch.
    pub fn epoch_offset(&self) -> (r: EpochOffset)
        ensures
            r@ == self@,
            r.subsec_nanos < 1_000_000_000,
            r.before_epoch == (self@ < 0),
    {
        let seconds = self.secs();
        let nanos = self.subsec_nanos();
        if seconds < 0 {
            let distance: u64 = if seconds == i64::MIN {
                9_223_372_036_854_775_808u64
            } else {
                (-seconds) as u64
            };
            if nanos != 0 {
                EpochOffset {
                    before_epoch: true,
                    secs: distance - 1,
                    subsec_nanos: NANOS_PER_SECOND_U32 - nanos,
                }
            } else {
                EpochOffset { before_epoch: true, secs: distance, subsec_nanos: 0 }
            }
        } else {
            EpochOffset { before_epoch: false, secs: seconds as u64, subsec_nanos: nanos }
        }
    }

    /// The instant at the given distance from the epoch. Fails exactly when
    /// its whole seconds do not fit in an `i64`.
    pub fn from_epoch_offset(offset: EpochOffset) -> (r: Result<DateTime, ConversionError>)
        requires
            offset.subsec_nanos < 1_000_000_000,
        ensures
            r is Ok <==> i64::MIN * 1_000_000_000 <= offset@ < (i64::MAX + 1) * 1_000_000_000,
            r matches Ok(d) ==> d@ == offset@,
    {
        let distance = offset.secs as i128 * 1_000_000_000 + offset.subsec_nanos as i128;
        if offset.before_epoch {
            DateTime::from_nanos(-distance)
        } else {
            DateTime::from_nanos(distance)
        }
    }
}

/// What the error says where the platform's `SystemTime` cannot hold an
/// instant that lies before the epoch, or one that lies at or after it.
pub open spec fn overflow_message(before_epoch: bool) -> &'static str {
    if before_epoch {
        "overflow occurred when subtracting duration from UNIX_EPOCH"
    } else {
        "overflow occurred when adding duration to UNIX_EPOCH"
    }
}

/// What the conversion makes of what the platform found at an offset from
/// the epoch: the instant, where it found one; otherwise the error of an
/// overflow in the direction of the offset.
pub fn found_or_overflow(before_epoch: bool, found: Option<SystemTime>) -> (r: Result<
    SystemTime,
    ConversionError,
>)
    ensures
        match found {
            Some(time) => r == Ok::<SystemTime, ConversionError>(time),
            None => r matches Err(error) && error.spec_message() == overflow_message(before_epoch),
        },
{
    match found {
        Some(time) => Ok(time),
        None => if before_epoch {
            Err(ConversionError("overflow occurred when subtracting duration from UNIX_EPOCH"))
        } else {
            Err(ConversionError("overflow occurred when adding duration to UNIX_EPOCH"))
        },
    }
}

/// Tries to convert a [`DateTime`] into a [`SystemTime`].
///
/// This can fail if the the `DateTime` value is larger or smaller than what the `SystemTime`
/// can represent on the operating system it's compiled for.
impl TryFrom<DateTime> for SystemTime {
    type Error = ConversionError;

    /// The platform is asked for the instant at the distance of `date_time`
    /// from the epoch, before it or after it. Whether it can hold that
    /// instant depends on the platform; where it cannot, the error is that
    /// of an overflow in the direction of the instant.
    fn try_from(date_time: DateTime) -> (r: Result<SystemTime, ConversionError>)
        ensures
            r matches Err(error) ==> error.spec_message() == overflow_message(date_time@ < 0),
    {
        let offset = date_time.epoch_offset();
        let found = if offset.before_epoch {
            epoch_minus(offset.secs, offset.subsec_nanos)
        } else {
            epoch_plus(offset.secs, offset.subsec_nanos)
        };
        found_or_overflow(offset.before_epoch, found)
    }
}

/// What the conversion gives depends on what the platform's `SystemTime`
/// can hold, so no specification is claimed for it.
impl TryFromSpecImpl<DateTime> for SystemTime {
    open spec fn obeys_try_from_spec() -> bool {
        false
    }

    open spec fn try_from_spec(date_time: DateTime) -> Result<SystemTime, ConversionError> {
        arbitrary()
    }
}

/// The conversion reads the distance of a `SystemTime` from the epoch, of
/// which verified code knows only the range of its nanoseconds, so no
/// specification is claimed for it; `from_epoch_offset` states what is made
/// of that distance.
impl FromSpecImpl<SystemTime> for DateTime {
    open spec fn obeys_from_spec() -> bool {
        false
    }

    open spec fn from_spec(time: SystemTime) -> DateTime {
        arbitrary()
    }
}

impl From<SystemTime> for DateTime {
    /// The instant of `time`. A `SystemTime` beyond what a `DateTime` can
    /// hold, which no supported platform has, gives the nearest instant that
    /// it can hold.
    fn from(time: SystemTime) -> (r: DateTime) {
        let offset = offset_from_epoch(time);
        match DateTime::from_epoch_offset(offset) {
            Ok(date_time) => date_time,
            Err(_) => if offset.before_epoch {
                DateTime::earliest()
            } else {
                DateTime::latest()
            },
        }
    }
}

} // verus!
