//! The timestamp label that sale and purchase records carry.

use crate::text::{decimal_digits, decimal_text};
use std::time::{Duration, SystemTime, SystemTimeError};
use vstd::prelude::*;

verus! {

/// `std::time::SystemTime`, a reading of the system clock. Nothing is known
/// of what such a value holds.
#[verifier::external_type_specification]
#[verifier::external_body]
pub struct ExSystemTime(SystemTime);

/// `std::time::SystemTimeError`, the error of a time difference whose second
/// reading lies before the first. Nothing is known of what it holds.
#[verifier::external_type_specification]
#[verifier::external_body]
pub struct ExSystemTimeError(SystemTimeError);

/// `SystemTime::now` reads the system clock. Nothing is claimed of the
/// reading: it differs from call to call.
pub assume_specification[ SystemTime::now ]() -> (now: SystemTime)
;

/// `SystemTime::duration_since` gives the time elapsed from `earlier` to
/// `time`, or an error when `earlier` is the later of the two. Nothing is
/// claimed of which it is, nor of the amount.
pub assume_specification[ SystemTime::duration_since ](
    time: &SystemTime,
    earlier: SystemTime,
) -> (elapsed: Result<Duration, SystemTimeError>)
;

/// `Duration::as_secs` gives the whole seconds of a duration. Nothing is
/// claimed of the number.
pub assume_specification[ Duration::as_secs ](elapsed: &Duration) -> (seconds: u64)
;

/// `std::time::UNIX_EPOCH`, the reading that stands for the start of 1970 in
/// universal time. Nothing is claimed of it.
#[verifier::external_body]
fn unix_epoch() -> (epoch: SystemTime) {
    std::time::UNIX_EPOCH
}

/// The label for a clock reading: the seconds elapsed since the start of
/// 1970 behind the word "Timestamp", or a fixed text where the clock stood
/// before that moment.
pub open spec fn time_label_text(seconds: Option<u64>) -> Seq<char> {
    match seconds {
        Some(n) => "Timestamp: "@ + decimal_digits(n as nat),
        None => "Geçersiz Zaman"@,
    }
}

/// Whether `label` is the label of some clock reading.
pub open spec fn is_time_label(label: Seq<char>) -> bool {
    exists|seconds: Option<u64>| label == time_label_text(seconds)
}

/// Writes the label for a clock reading given as whole seconds since the
/// start of 1970, or `None` for a clock that stood before it.
pub fn time_label(seconds: Option<u64>) -> (label: String)
    ensures
        label@ == time_label_text(seconds),
{
    match seconds {
        Some(n) => {
            let mut label = String::from_str("Timestamp: ");
            label.append(decimal_text(n as u128).as_str());
            label
        },
        None => String::from_str("Geçersiz Zaman"),
    }
}

/// Reads the system clock and writes its label. The reading is whatever the
/// clock gives; the label is that of some reading.
pub fn chrono_string() -> (label: String)
    ensures
        is_time_label(label@),
{
    let now = SystemTime::now();
    let seconds = match now.duration_since(unix_epoch()) {
        Ok(elapsed) => Some(elapsed.as_secs()),
        Err(_) => None,
    };
    time_label(seconds)
}

} // verus!
