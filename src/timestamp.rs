//! Creation times of entries, checked against the range the calendar can hold.

use vstd::prelude::*;

verus! {

/// The last second, counted from the Unix epoch, that falls on a date the calendar
/// can hold (the end of December 31 of year 262142).
pub const MAX_TIMESTAMP: i64 = 8_210_266_876_799;

/// Why a creation time cannot be shown.
#[derive(Debug, Clone, Copy, PartialEq, Eq, Structural)]
pub enum TimestampError {
    /// The time lies before the Unix epoch.
    Negative,
    /// The time lies past the last date the calendar can hold.
    OutOfRange,
}

/// Relies on chrono::DateTime::from_timestamp with zero nanoseconds: it gives a
/// UTC date-time exactly when the day `secs` falls on lies within the calendar's
/// range. For `secs >= 0` that day is at most year 262142 exactly when
/// `secs <= MAX_TIMESTAMP`.
#[verifier::external_body]
fn representable_as_utc(secs: i64) -> (r: bool)
    ensures
        0 <= secs ==> (r <==> secs <= MAX_TIMESTAMP),
{
    chrono::DateTime::from_timestamp(secs, 0).is_some()
}

/// The outcome owed for a creation time of `secs` seconds since the epoch.
pub open spec fn timestamp_failure(secs: int) -> Option<TimestampError> {
    if secs < 0 {
        Some(TimestampError::Negative)
    } else if secs > MAX_TIMESTAMP {
        Some(TimestampError::OutOfRange)
    } else {
        None
    }
}

/// Checks a creation time given in whole seconds since the epoch, and hands it
/// back when it can be shown as a calendar date.
pub fn check_created_secs(secs: i64) -> (r: Result<i64, TimestampError>)
    ensures
        r == (match timestamp_failure(secs as int) {
            None => Ok::<i64, TimestampError>(secs),
            Some(e) => Err(e),
        }),
{
    if secs < 0 {
        return Err(TimestampError::Negative);
    }
    if representable_as_utc(secs) {
        Ok(secs)
    } else {
        Err(TimestampError::OutOfRange)
    }
}

impl TimestampError {
    pub open spec fn message_view(&self) -> Seq<char> {
        match self {
            TimestampError::Negative => "Invalid timestamp: before the Unix epoch"@,
            TimestampError::OutOfRange => "Invalid timestamp: past the last representable date"@,
        }
    }

    /// Describes this error to a user.
    pub fn message(&self) -> (r: String)
        ensures
            r@ == self.message_view(),
    {
        match self {
            TimestampError::Negative => String::from_str("Invalid timestamp: before the Unix epoch"),
            TimestampError::OutOfRange => String::from_str(
                "Invalid timestamp: past the last representable date",
            ),
        }
    }
}

} // verus!
