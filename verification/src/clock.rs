//! Points in time on the node's monotonic clock.

use vstd::prelude::*;

verus! {

/// Clock ticks per second: `embassy_time::TICK_HZ`. The library is built
/// with embassy-time's feature `tick-hz-1_000_000`, one tick per microsecond;
/// a build that selects another rate besides does not compile.
pub const TICKS_PER_SECOND: u64 = 1_000_000;

/// A point in time, in clock ticks since start-up.
#[derive(Clone, Copy, Debug, PartialEq, Eq, Structural)]
pub struct Timestamp {
    /// Clock ticks since start-up.
    pub ticks: u64,
}

/// Whole seconds from `earlier` to `now`; zero when `now` is not later.
pub open spec fn elapsed_secs(earlier: Timestamp, now: Timestamp) -> nat {
    if earlier.ticks <= now.ticks {
        ((now.ticks - earlier.ticks) / (TICKS_PER_SECOND as int)) as nat
    } else {
        0
    }
}

/// `embassy_time::Instant::now` reads the clock. Nothing is claimed of the
/// value: it differs from call to call.
#[verifier::external_body]
pub(crate) fn clock_now() -> Timestamp {
    Timestamp { ticks: embassy_time::Instant::now().as_ticks() }
}

/// `embassy_time::Instant::duration_since` gives the span between two instants,
/// here in ticks. It panics when `earlier` is the later one, which the
/// precondition rules out.
#[verifier::external_body]
fn ticks_between(later: Timestamp, earlier: Timestamp) -> (ticks: u64)
    requires
        earlier.ticks <= later.ticks,
    ensures
        ticks == later.ticks - earlier.ticks,
{
    embassy_time::Instant::from_ticks(later.ticks).duration_since(
        embassy_time::Instant::from_ticks(earlier.ticks),
    ).as_ticks()
}

/// `embassy_time::Duration::as_secs` converts a span to seconds, rounding
/// down: the tick count divided by the tick rate, [`TICKS_PER_SECOND`] in
/// every build of this library.
#[verifier::external_body]
fn whole_seconds(ticks: u64) -> (secs: u64)
    ensures
        secs == ticks / TICKS_PER_SECOND,
{
    embassy_time::Duration::from_ticks(ticks).as_secs()
}

impl Timestamp {
    /// The instant `ticks` clock ticks after start-up.
    pub fn from_ticks(ticks: u64) -> (t: Self)
        ensures
            t.ticks == ticks,
    {
        Timestamp { ticks }
    }

    /// Clock ticks since start-up.
    pub fn as_ticks(&self) -> (ticks: u64)
        ensures
            ticks == self.ticks,
    {
        self.ticks
    }

    /// Whole seconds that passed from `earlier` to `self`; zero when `self`
    /// is not later than `earlier`.
    pub fn seconds_since(&self, earlier: Timestamp) -> (secs: u64)
        ensures
            secs == elapsed_secs(earlier, *self),
    {
        if earlier.ticks <= self.ticks {
            whole_seconds(ticks_between(*self, earlier))
        } else {
            0
        }
    }
}

} // verus!
