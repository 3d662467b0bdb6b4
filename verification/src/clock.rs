//! The wall clock, in whole seconds since the Unix epoch.

use vstd::prelude::*;

verus! {

/// The latest second at which a token with the fixed lifetime can be issued.
pub const LATEST_ISSUE: usize = usize::MAX - 86_400;

/// Maps a raw clock reading to a second at which a token can be issued:
/// readings before the epoch count as the epoch, readings beyond the
/// representable range as the latest issue time.
pub open spec fn clamped_seconds(raw: i64) -> usize {
    if raw < 0 {
        0
    } else if raw > LATEST_ISSUE {
        LATEST_ISSUE
    } else {
        raw as usize
    }
}

/// Reads the system clock and converts the reading with `chrono`'s
/// `DateTime::<Utc>::from`, then takes its `timestamp`: whole seconds since
/// the epoch, negative where the clock stands before it. Nothing is claimed
/// of the value.
#[verifier::external_body]
fn raw_seconds() -> (raw: i64) {
    chrono::DateTime::<chrono::Utc>::from(std::time::SystemTime::now()).timestamp()
}

/// Brings a raw clock reading into the range of issue times.
pub fn clamp_seconds(raw: i64) -> (secs: usize)
    ensures
        secs == clamped_seconds(raw),
        secs <= LATEST_ISSUE,
{
    if raw < 0 {
        0
    } else if raw as u64 > LATEST_ISSUE as u64 {
        LATEST_ISSUE
    } else {
        raw as usize
    }
}

/// The current time as a second at which a token can be issued.
pub fn unix_now() -> (secs: usize)
    ensures
        secs <= LATEST_ISSUE,
{
    clamp_seconds(raw_seconds())
}

} // verus!
