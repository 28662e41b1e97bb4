//! The wall clock, in milliseconds since the Unix epoch, and the monotonic
//! clock, in nanoseconds since a chosen origin.

use crate::duration::{capped_to_u64, Duration, NANOS_PER_SEC};
use vstd::prelude::*;

verus! {

/// `std::time::Instant`: a point in time on the monotonic clock.
#[verifier::external_type_specification]
#[verifier::external_body]
pub struct ExInstant(std::time::Instant);

/// Calls `std::time::SystemTime::elapsed` on the Unix epoch: the seconds, and the
/// nanoseconds beyond them, that have passed since then on the system's clock, or
/// `None` while that clock stands before the epoch. The nanoseconds make up less
/// than a second. What the clock shows is not claimed.
#[verifier::external_body]
pub(crate) fn unix_elapsed() -> (passed: Option<(u64, u32)>)
    ensures
        passed matches Some((_, subsec_nanos)) ==> subsec_nanos < NANOS_PER_SEC,
{
    match std::time::UNIX_EPOCH.elapsed() {
        Ok(passed) => Some((passed.as_secs(), passed.subsec_nanos())),
        Err(_) => None,
    }
}

/// Calls `std::time::Instant::now`. What the clock shows is not claimed.
#[verifier::external_body]
pub(crate) fn monotonic_now() -> std::time::Instant {
    std::time::Instant::now()
}

/// Calls `std::time::Instant::elapsed`: the seconds, and the nanoseconds beyond
/// them, that have passed since `origin` on the monotonic clock. The nanoseconds
/// make up less than a second. What the clock shows is not claimed.
#[verifier::external_body]
pub(crate) fn instant_elapsed(origin: &std::time::Instant) -> (passed: (u64, u32))
    ensures
        passed.1 < NANOS_PER_SEC,
{
    let passed = origin.elapsed();
    (passed.as_secs(), passed.subsec_nanos())
}

/// The length of a reading in seconds and the nanoseconds beyond them, in
/// nanoseconds.
pub open spec fn reading_nanos(reading: (u64, u32)) -> nat {
    (reading.0 * NANOS_PER_SEC + reading.1) as nat
}

/// A reading of the wall clock in milliseconds since the Unix epoch. A clock that
/// stands before the epoch is read as standing at it.
pub open spec fn reading_ms(reading: Option<(u64, u32)>) -> u64 {
    match reading {
        Some(passed) => capped_to_u64(reading_nanos(passed) / 1_000_000),
        None => 0,
    }
}

/// The wall clock can give this reading when it is asked.
pub closed spec fn wall_clock_gives(reading: Option<(u64, u32)>) -> bool {
    call_ensures(unix_elapsed, (), reading)
}

/// The monotonic clock can give this reading when it is asked for the time since
/// `origin`.
pub closed spec fn monotonic_clock_gives(
    origin: std::time::Instant,
    reading: (u64, u32),
) -> bool {
    call_ensures(instant_elapsed, (&origin,), reading)
}

/// The monotonic clock can show this point in time when it is asked for the
/// present one.
pub closed spec fn monotonic_clock_shows(instant: std::time::Instant) -> bool {
    call_ensures(monotonic_now, (), instant)
}

/// The point in time that the monotonic clock shows.
pub(crate) fn monotonic_instant() -> (instant: std::time::Instant)
    ensures
        monotonic_clock_shows(instant),
{
    monotonic_now()
}

/// The time that has passed since `origin` on the monotonic clock: what the clock
/// gives for that origin, to the nanosecond.
pub(crate) fn monotonic_elapsed(origin: &std::time::Instant) -> (passed: Duration)
    ensures
        exists|reading: (u64, u32)| #[trigger]
            monotonic_clock_gives(*origin, reading) && passed@ == reading_nanos(reading),
{
    let (secs, subsec_nanos) = instant_elapsed(origin);
    proof {
        assert(monotonic_clock_gives(*origin, (secs, subsec_nanos)));
    }
    Duration::new(secs, subsec_nanos)
}

/// A reading of the wall clock as the millisecond fields of this crate hold it.
/// A clock that stands before the Unix epoch, which gives no duration since
/// then, is read as standing at it.
pub fn unix_ms(since_epoch: Option<Duration>) -> (ms: u64)
    ensures
        ms == match since_epoch {
            Some(passed) => passed.millis_u64(),
            None => 0,
        },
{
    match since_epoch {
        Some(passed) => passed.as_millis_u64(),
        None => 0,
    }
}

/// The wall clock's time in milliseconds since the Unix epoch: what the clock
/// gives, rounded down to milliseconds.
pub fn now_ms() -> (ms: u64)
    ensures
        exists|reading: Option<(u64, u32)>| #[trigger]
            wall_clock_gives(reading) && ms == reading_ms(reading),
{
    let reading = unix_elapsed();
    proof {
        assert(wall_clock_gives(reading));
    }
    match reading {
        Some((secs, subsec_nanos)) => unix_ms(Some(Duration::new(secs, subsec_nanos))),
        None => unix_ms(None),
    }
}

/// A reading of the wall clock in milliseconds is the number of those that have
/// passed since the epoch, rounded down, as far as 64 bits can number it; a clock
/// before the epoch shows none.
pub proof fn law_reading_counts_milliseconds(secs: u64, subsec_nanos: u32)
    ensures
        reading_nanos((secs, subsec_nanos)) == secs * 1_000_000_000 + subsec_nanos,
        ({
            let ms = reading_ms(Some((secs, subsec_nanos)));
            let nanos = secs * 1_000_000_000 + subsec_nanos;
            if nanos < 0x1_0000_0000_0000_0000 * 1_000_000 {
                ms * 1_000_000 <= nanos < (ms + 1) * 1_000_000
            } else {
                ms == u64::MAX
            }
        }),
        reading_ms(None) == 0,
{
}

/// The time that is told is what the clock gave: the milliseconds since the epoch,
/// rounded down, or nought before it.
pub proof fn law_time_is_what_the_clock_gave(ms: u64)
    requires
        call_ensures(now_ms, (), ms),
    ensures
        exists|reading: Option<(u64, u32)>| #[trigger]
            wall_clock_gives(reading) && match reading {
                Some((secs, subsec_nanos)) => {
                    let nanos = secs * 1_000_000_000 + subsec_nanos;
                    if nanos < 0x1_0000_0000_0000_0000 * 1_000_000 {
                        ms * 1_000_000 <= nanos < (ms + 1) * 1_000_000
                    } else {
                        ms == u64::MAX
                    }
                },
                None => ms == 0,
            },
{
    let reading = choose|reading: Option<(u64, u32)>| #[trigger]
        wall_clock_gives(reading) && ms == reading_ms(reading);
    if let Some((secs, subsec_nanos)) = reading {
        law_reading_counts_milliseconds(secs, subsec_nanos);
    }
}

/// A duration since the epoch is told in milliseconds, rounded down; a clock before
/// the epoch is told as standing at it.
pub proof fn law_time_since_the_epoch_is_rounded_down(passed: Duration, ms: u64, before: u64)
    requires
        call_ensures(unix_ms, (Some(passed),), ms),
        call_ensures(unix_ms, (None,), before),
    ensures
        passed@ < 0x1_0000_0000_0000_0000 * 1_000_000 ==> ms * 1_000_000 <= passed@ < (ms + 1)
            * 1_000_000,
        passed@ >= 0x1_0000_0000_0000_0000 * 1_000_000 ==> ms == u64::MAX,
        before == 0,
{
}

/// What the clocks can give is what they give when they are asked: the wall clock for the
/// time since the epoch, the monotonic one for the present or for the time since just
/// this origin.
pub(crate) proof fn law_clocks_are_asked(
    wall: Option<(u64, u32)>,
    origin: std::time::Instant,
    reading: (u64, u32),
    passed: Duration,
)
    ensures
        wall_clock_gives(wall) <==> call_ensures(unix_elapsed, (), wall),
        monotonic_clock_shows(origin) <==> call_ensures(monotonic_now, (), origin),
        monotonic_clock_gives(origin, reading) <==> call_ensures(
            instant_elapsed,
            (&origin,),
            reading,
        ),
        call_ensures(monotonic_elapsed, (&origin,), passed) ==> exists|since: (u64, u32)| #[trigger]
            monotonic_clock_gives(origin, since) && passed@ == since.0 * 1_000_000_000 + since.1,
{
}

} // verus!
