//! Token lifetimes: the absolute expiry of a token, and whether a token is
//! still usable.
//!
//! An expiry is always an absolute time in seconds since the Unix epoch,
//! computed once from the time of issue and the lifetime that the provider
//! reported, so that staleness can be judged without knowing when the record
//! was written.

use crate::error::DetailModel;
use crate::error::Error;
use crate::error::ErrorKind;
use crate::error::FailureModel;
use vstd::prelude::*;

verus! {

/// The error of `chrono` for a duration that it cannot hold.
#[verifier::external_type_specification]
#[verifier::external_body]
pub struct ExOutOfRangeError(chrono::OutOfRangeError);

/// The longest lifetime, in whole seconds, that `chrono::Duration` holds:
/// `i64::MAX` milliseconds.
pub const MAX_LIFETIME_SECS: u64 = 9_223_372_036_854_775;

/// `chrono::Duration::from_std` on a duration of `secs` whole seconds, and
/// the seconds of what it returns. It refuses a duration of more than
/// `i64::MAX` milliseconds and converts every other one exactly.
#[verifier::external_body]
fn lifetime_from_std(secs: u64) -> (lifetime: Result<i64, chrono::OutOfRangeError>)
    ensures
        lifetime is Ok <==> secs <= MAX_LIFETIME_SECS,
        lifetime matches Ok(s) ==> s == secs,
{
    match chrono::Duration::from_std(std::time::Duration::from_secs(secs)) {
        Ok(delta) => Ok(delta.num_seconds()),
        Err(error) => Err(error),
    }
}

/// No time that `chrono` holds lies further from the Unix epoch than this
/// many seconds: it counts the days of a time in 32 bits, which is less than
/// 2.2 thousand million days of 86 400 seconds.
pub const CLOCK_LIMIT_SECS: i64 = 200_000_000_000_000;

/// Whether `now` is a time that the system clock can give.
pub open spec fn clock_reading(now: i64) -> bool {
    -CLOCK_LIMIT_SECS <= now <= CLOCK_LIMIT_SECS
}

/// `chrono::Utc::now().timestamp()`: the system clock, in seconds since the
/// Unix epoch. `Utc::now` builds its result with `DateTime::from_timestamp`,
/// which refuses a time whose day count does not fit in 32 bits, so what
/// comes back is within [`CLOCK_LIMIT_SECS`] of the epoch. On a machine
/// whose clock is set before the epoch the call does not come back.
#[verifier::external_body]
pub(crate) fn unix_now() -> (now: i64)
    ensures
        clock_reading(now),
{
    chrono::Utc::now().timestamp()
}

/// The absolute expiry of a token issued at `now` for `lifetime` seconds,
/// where there is one: the lifetime must be one that a duration holds, and
/// the expiry one that a timestamp holds.
pub open spec fn expiry_of(now: i64, lifetime: u64) -> Option<int> {
    if lifetime <= MAX_LIFETIME_SECS && now + lifetime <= i64::MAX {
        Some(now + lifetime)
    } else {
        None
    }
}

/// Whether at `now` a token is usable that expires at `expiry`, given that
/// it counts as expired `skew` seconds early.
pub open spec fn usable_at(now: int, expiry: int, skew: int) -> bool {
    now < expiry - skew
}

/// The failure for a lifetime from which no expiry can be computed. Its
/// detail is the refusal of the duration, where that is what failed.
pub open spec fn expiry_failure(lifetime: u64) -> FailureModel {
    FailureModel {
        kind: ErrorKind::MissingExpiry,
        reason: "expiry failed"@,
        detail: if lifetime > MAX_LIFETIME_SECS {
            DetailModel::Rendered
        } else {
            DetailModel::Absent
        },
    }
}

/// The absolute expiry of a token issued at `now` for `lifetime` seconds.
/// Where there is none, the error is the detail for the record: the
/// rendering of the refusal where the lifetime is too long for a duration,
/// nothing where only the sum is out of range.
pub fn absolute_expiry(now: i64, lifetime: u64) -> (expiry: Result<i64, Option<String>>)
    ensures
        match expiry_of(now, lifetime) {
            Some(e) => expiry == Ok::<i64, Option<String>>(e as i64),
            None => expiry matches Err(detail) && (detail is Some <==> lifetime
                > MAX_LIFETIME_SECS),
        },
{
    match lifetime_from_std(lifetime) {
        Ok(seconds) => match now.checked_add(seconds) {
            Some(expiry) => Ok(expiry),
            None => Err(None),
        },
        Err(error) => Err(Error::fmt(error)),
    }
}

/// Whether at `now` a token is usable that expires at `expiry`, with the
/// early-refresh skew `skew`. Exact for every three values: nothing wraps.
pub fn is_usable(now: i64, expiry: i64, skew: i64) -> (usable: bool)
    ensures
        usable == usable_at(now as int, expiry as int, skew as int),
{
    (now as i128) < (expiry as i128) - (skew as i128)
}

} // verus!
