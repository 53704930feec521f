//! Wall-clock time as the engine expects it: milliseconds since the Unix epoch.

use vstd::prelude::*;

verus! {

/// `std::time::SystemTime`, carried through unseen.
#[verifier::external_type_specification]
#[verifier::external_body]
pub struct ExSystemTime(std::time::SystemTime);

/// `std::time::SystemTimeError`, carried through unseen.
#[verifier::external_type_specification]
#[verifier::external_body]
pub struct ExSystemTimeError(std::time::SystemTimeError);

/// Where a point in time lies, in nanoseconds counted from the Unix epoch;
/// negative before it.
pub uninterp spec fn nanos_since_epoch(time: std::time::SystemTime) -> int;

/// The length of a duration in nanoseconds.
pub uninterp spec fn duration_nanos(duration: std::time::Duration) -> nat;

/// `SystemTime::now` reads the clock. Nothing is claimed of what it shows.
pub assume_specification[ std::time::SystemTime::now ]() -> (time: std::time::SystemTime)
;

/// `Duration::as_millis` gives the whole milliseconds of a duration.
pub assume_specification[ std::time::Duration::as_millis ](
    duration: &std::time::Duration,
) -> (millis: u128)
    ensures
        millis == duration_nanos(*duration) / 1_000_000,
;

/// Calls `SystemTime::duration_since` with the Unix epoch. It gives the time
/// that lies between, and fails exactly if the epoch is later than `time`.
#[verifier::external_body]
fn since_epoch(time: std::time::SystemTime) -> (elapsed: Result<
    std::time::Duration,
    std::time::SystemTimeError,
>)
    ensures
        match elapsed {
            Ok(duration) => nanos_since_epoch(time) == duration_nanos(duration),
            Err(_) => nanos_since_epoch(time) < 0,
        },
{
    time.duration_since(std::time::UNIX_EPOCH)
}

/// Whole milliseconds in `nanos` nanoseconds since the epoch, as a 64-bit count
/// that wraps; 0 before the epoch.
pub open spec fn epoch_millis(nanos: int) -> int {
    if nanos < 0 {
        0
    } else {
        (nanos / 1_000_000) % 0x1_0000_0000_0000_0000
    }
}

/// The milliseconds since the Unix epoch at `time`.
pub fn millis_at(time: std::time::SystemTime) -> (ms: u64)
    ensures
        ms == epoch_millis(nanos_since_epoch(time)),
{
    match since_epoch(time) {
        Ok(duration) => {
            let millis: u128 = duration.as_millis();
            assert(millis as u64 == millis % 0x1_0000_0000_0000_0000) by (bit_vector);
            #[verifier::truncate]
            let ms: u64 = millis as u64;
            ms
        },
        Err(_) => 0,
    }
}

/// The milliseconds since the Unix epoch at some moment during the call.
pub fn now_ms() -> (ms: u64)
    ensures
        exists|time: std::time::SystemTime|
            ms == epoch_millis(#[trigger] nanos_since_epoch(time)),
{
    millis_at(std::time::SystemTime::now())
}

/// Before the epoch the count is 0. From the epoch on, as long as the count has
/// not wrapped, `nanos` lies within the millisecond that is told.
pub proof fn law_millis_bracket_the_time(nanos: int)
    ensures
        nanos < 0 ==> epoch_millis(nanos) == 0,
        0 <= nanos < 0x1_0000_0000_0000_0000 * 1_000_000 ==> epoch_millis(nanos) * 1_000_000
            <= nanos < (epoch_millis(nanos) + 1) * 1_000_000,
{
}

/// The count starts over every 2^64 milliseconds.
pub proof fn law_millis_start_over(nanos: int)
    requires
        nanos >= 0,
    ensures
        epoch_millis(nanos + 0x1_0000_0000_0000_0000 * 1_000_000) == epoch_millis(nanos),
{
}

/// Time does not run backwards while the count has not wrapped.
pub proof fn law_later_is_not_less(earlier: int, later: int)
    requires
        earlier <= later < 0x1_0000_0000_0000_0000 * 1_000_000,
    ensures
        epoch_millis(earlier) <= epoch_millis(later),
{
}

} // verus!
