//! Durations and instants, counted in ticks of the kernel clock.
//!
//! The clock runs at a fixed 1 MHz here ([`TICK_FREQ_HZ`]); on a board the
//! frequency is the board's own, and the tick conversions change with it.
//! Adding or subtracting in place (`+=`, `-=`) is written as `a = a + b`.
use vstd::prelude::*;
use vstd::std_specs::ops::{AddSpecImpl, DivSpecImpl, MulSpecImpl, SubSpecImpl};

verus! {

/// Ticks of the kernel clock per second.
pub const TICK_FREQ_HZ: u64 = 1_000_000u64;

/// Ticks per millisecond.
pub const TICKS_PER_MILLI: u64 = 1_000u64;

/// Ticks per microsecond.
pub const TICKS_PER_MICRO: u64 = 1u64;

#[derive(PartialEq, Eq, Structural, PartialOrd, Ord, Clone, Copy, Hash, Debug)]
pub struct Duration {
    ticks: u64,
}

impl View for Duration {
    type V = nat;

    /// The number of ticks.
    closed spec fn view(&self) -> nat {
        self.ticks as nat
    }
}

impl Duration {
    pub fn second() -> (r: Duration)
        ensures
            r@ == TICK_FREQ_HZ,
    {
        Duration { ticks: TICK_FREQ_HZ }
    }

    pub fn millisecond() -> (r: Duration)
        ensures
            r@ == TICKS_PER_MILLI,
    {
        Duration { ticks: TICKS_PER_MILLI }
    }

    pub fn microsecond() -> (r: Duration)
        ensures
            r@ == TICKS_PER_MICRO,
    {
        Duration { ticks: TICKS_PER_MICRO }
    }

    pub fn zero() -> (r: Duration)
        ensures
            r@ == 0,
    {
        Duration { ticks: 0 }
    }

    pub fn max_duration() -> (r: Duration)
        ensures
            r@ == u64::MAX,
    {
        Duration { ticks: u64::MAX }
    }

    /// `secs` seconds and `nanos` nanoseconds, the nanoseconds rounded down to
    /// whole microseconds.
    pub fn new(secs: u64, nanos: u32) -> (r: Duration)
        requires
            TICK_FREQ_HZ * secs + (TICKS_PER_MICRO * nanos) / 1000 <= u64::MAX,
        ensures
            r@ == TICK_FREQ_HZ * secs + (TICKS_PER_MICRO * nanos) / 1000,
    {
        let n: u64 = nanos as u64;
        Duration { ticks: TICK_FREQ_HZ * secs + (TICKS_PER_MICRO * n) / 1000 }
    }

    pub fn from_secs(secs: u64) -> (r: Duration)
        requires
            TICK_FREQ_HZ * secs <= u64::MAX,
        ensures
            r@ == TICK_FREQ_HZ * secs,
    {
        Duration { ticks: TICK_FREQ_HZ * secs }
    }

    pub fn from_millis(millis: u64) -> (r: Duration)
        requires
            TICKS_PER_MILLI * millis <= u64::MAX,
        ensures
            r@ == TICKS_PER_MILLI * millis,
    {
        Duration { ticks: TICKS_PER_MILLI * millis }
    }

    pub fn from_micros(micros: u64) -> (r: Duration)
        requires
            TICKS_PER_MICRO * micros <= u64::MAX,
        ensures
            r@ == TICKS_PER_MICRO * micros,
    {
        Duration { ticks: TICKS_PER_MICRO * micros }
    }

    pub fn from_ticks(ticks: u64) -> (r: Duration)
        ensures
            r@ == ticks,
    {
        Duration { ticks }
    }

    pub fn as_ticks(&self) -> (r: u64)
        ensures
            r == self@,
    {
        self.ticks
    }

    pub fn is_zero(&self) -> (r: bool)
        ensures
            r == (self@ == 0),
    {
        self.ticks == 0
    }

    pub fn as_secs(&self) -> (r: u64)
        ensures
            r == self@ / (TICK_FREQ_HZ as nat),
    {
        self.ticks / TICK_FREQ_HZ
    }

    pub fn as_millis(&self) -> (r: u64)
        ensures
            r == self@ / (TICKS_PER_MILLI as nat),
    {
        self.ticks / TICKS_PER_MILLI
    }

    pub fn as_micros(&self) -> (r: u64)
        ensures
            r == self@ / (TICKS_PER_MICRO as nat),
    {
        self.ticks / TICKS_PER_MICRO
    }

    /// The duration in nanoseconds, truncated to 64 bits.
    pub fn as_nanos(&self) -> (r: u64)
        ensures
            r == ((self@ * 1_000_000_000) / (TICK_FREQ_HZ as nat)) as u64,
    {
        let t: u128 = self.ticks as u128;
        assert(t * 1_000_000_000 <= u128::MAX) by (nonlinear_arith)
            requires
                t <= u64::MAX,
        ;
        let q: u128 = t * 1_000_000_000u128 / 1_000_000u128;
        q as u64
    }

    pub fn saturating_add(self, rhs: Duration) -> (r: Duration)
        ensures
            r@ == (if self@ + rhs@ > u64::MAX { u64::MAX as nat } else { self@ + rhs@ }),
    {
        Duration { ticks: self.ticks.saturating_add(rhs.ticks) }
    }

    pub fn saturating_sub(self, rhs: Duration) -> (r: Duration)
        ensures
            r@ == (if self@ < rhs@ { 0 } else { (self@ - rhs@) as nat }),
    {
        Duration { ticks: self.ticks.saturating_sub(rhs.ticks) }
    }

    pub fn checked_add(self, rhs: Duration) -> (r: Option<Duration>)
        ensures
            self@ + rhs@ <= u64::MAX ==> (r matches Some(d) && d@ == self@ + rhs@),
            self@ + rhs@ > u64::MAX ==> r is None,
    {
        match self.ticks.checked_add(rhs.ticks) {
            Some(ticks) => Some(Duration { ticks }),
            None => None,
        }
    }

    pub fn checked_sub(self, rhs: Duration) -> (r: Option<Duration>)
        ensures
            self@ >= rhs@ ==> (r matches Some(d) && d@ == self@ - rhs@),
            self@ < rhs@ ==> r is None,
    {
        match self.ticks.checked_sub(rhs.ticks) {
            Some(ticks) => Some(Duration { ticks }),
            None => None,
        }
    }

    /// Whole number of times `rhs` fits in `self`.
    pub fn div_duration(self, rhs: Duration) -> (r: u64)
        requires
            rhs@ > 0,
        ensures
            r == self@ / rhs@,
    {
        self.ticks / rhs.ticks
    }
}

#[derive(PartialEq, Eq, Structural, PartialOrd, Ord, Clone, Copy, Hash, Debug)]
pub struct Instant {
    pub tick: u64,
}

impl View for Instant {
    type V = nat;

    /// The clock reading in ticks.
    open spec fn view(&self) -> nat {
        self.tick as nat
    }
}

impl Instant {
    pub fn zero() -> (r: Instant)
        ensures
            r@ == 0,
    {
        Instant { tick: 0 }
    }

    pub fn from_ticks(tick: u64) -> (r: Instant)
        ensures
            r@ == tick,
    {
        Instant { tick }
    }

    pub fn as_ticks(&self) -> (r: u64)
        ensures
            r == self@,
    {
        self.tick
    }

    /// Time elapsed from `earlier` to `self`, saturating at zero if `earlier`
    /// is later.
    pub fn duration_since(&self, earlier: Instant) -> (r: Duration)
        ensures
            r@ == (if self@ < earlier@ { 0 } else { (self@ - earlier@) as nat }),
    {
        Duration { ticks: self.tick.saturating_sub(earlier.tick) }
    }

    pub fn checked_add(&self, duration: Duration) -> (r: Option<Instant>)
        ensures
            self@ + duration@ <= u64::MAX ==> (r matches Some(i) && i@ == self@ + duration@),
            self@ + duration@ > u64::MAX ==> r is None,
    {
        match self.tick.checked_add(duration.ticks) {
            Some(tick) => Some(Instant { tick }),
            None => None,
        }
    }

    /// Whether the clock reading `now` has reached `self`.
    pub fn is_reached_at(&self, now: Instant) -> (r: bool)
        ensures
            r == (now@ >= self@),
    {
        now.tick >= self.tick
    }
}

impl core::ops::Add<Duration> for Duration {
    type Output = Duration;

    /// The sum of two durations; a sum past the largest duration is an
    /// overflow, which `requires` leaves out.
    fn add(self, rhs: Duration) -> (r: Duration)
        ensures
            r@ == self@ + rhs@,
    {
        Duration { ticks: self.ticks + rhs.ticks }
    }
}

impl AddSpecImpl<Duration> for Duration {
    open spec fn obeys_add_spec() -> bool {
        true
    }

    open spec fn add_req(self, rhs: Duration) -> bool {
        self@ + rhs@ <= u64::MAX
    }

    closed spec fn add_spec(self, rhs: Duration) -> Duration {
        Duration { ticks: (self@ + rhs@) as u64 }
    }
}

impl core::ops::Sub<Duration> for Duration {
    type Output = Duration;

    /// The difference of two durations; a negative difference is an
    /// overflow, which `requires` leaves out.
    fn sub(self, rhs: Duration) -> (r: Duration)
        ensures
            r@ == self@ - rhs@,
    {
        Duration { ticks: self.ticks - rhs.ticks }
    }
}

impl SubSpecImpl<Duration> for Duration {
    open spec fn obeys_sub_spec() -> bool {
        true
    }

    open spec fn sub_req(self, rhs: Duration) -> bool {
        self@ >= rhs@
    }

    closed spec fn sub_spec(self, rhs: Duration) -> Duration {
        Duration { ticks: (self@ - rhs@) as u64 }
    }
}

impl core::ops::Mul<u64> for Duration {
    type Output = Duration;

    /// The duration `rhs` times as long; overflow is left out by `requires`.
    fn mul(self, rhs: u64) -> (r: Duration)
        ensures
            r@ == self@ * rhs,
    {
        Duration { ticks: self.ticks * rhs }
    }
}

impl MulSpecImpl<u64> for Duration {
    open spec fn obeys_mul_spec() -> bool {
        true
    }

    open spec fn mul_req(self, rhs: u64) -> bool {
        self@ * rhs <= u64::MAX
    }

    closed spec fn mul_spec(self, rhs: u64) -> Duration {
        Duration { ticks: (self@ * rhs) as u64 }
    }
}

impl core::ops::Mul<u32> for Duration {
    type Output = Duration;

    /// The duration `rhs` times as long; overflow is left out by `requires`.
    fn mul(self, rhs: u32) -> (r: Duration)
        ensures
            r@ == self@ * rhs,
    {
        Duration { ticks: self.ticks * (rhs as u64) }
    }
}

impl MulSpecImpl<u32> for Duration {
    open spec fn obeys_mul_spec() -> bool {
        true
    }

    open spec fn mul_req(self, rhs: u32) -> bool {
        self@ * rhs <= u64::MAX
    }

    closed spec fn mul_spec(self, rhs: u32) -> Duration {
        Duration { ticks: (self@ * rhs) as u64 }
    }
}

impl core::ops::Div<u64> for Duration {
    type Output = Duration;

    /// The duration divided into `rhs` parts, rounded down; dividing by
    /// zero is a fault, which `requires` leaves out.
    fn div(self, rhs: u64) -> (r: Duration)
        ensures
            r@ == self@ / (rhs as nat),
    {
        Duration { ticks: self.ticks / rhs }
    }
}

impl DivSpecImpl<u64> for Duration {
    open spec fn obeys_div_spec() -> bool {
        true
    }

    open spec fn div_req(self, rhs: u64) -> bool {
        rhs != 0
    }

    closed spec fn div_spec(self, rhs: u64) -> Duration {
        Duration { ticks: (self@ / (rhs as nat)) as u64 }
    }
}

impl core::ops::Div<u32> for Duration {
    type Output = Duration;

    /// The duration divided into `rhs` parts, rounded down; dividing by
    /// zero is a fault, which `requires` leaves out.
    fn div(self, rhs: u32) -> (r: Duration)
        ensures
            r@ == self@ / (rhs as nat),
    {
        Duration { ticks: self.ticks / (rhs as u64) }
    }
}

impl DivSpecImpl<u32> for Duration {
    open spec fn obeys_div_spec() -> bool {
        true
    }

    open spec fn div_req(self, rhs: u32) -> bool {
        rhs != 0
    }

    closed spec fn div_spec(self, rhs: u32) -> Duration {
        Duration { ticks: (self@ / (rhs as nat)) as u64 }
    }
}

impl core::ops::Add<Duration> for Instant {
    type Output = Instant;

    /// The instant `rhs` after `self`; a reading past the largest is an
    /// overflow, which `requires` leaves out.
    fn add(self, rhs: Duration) -> (r: Instant)
        ensures
            r@ == self@ + rhs@,
    {
        Instant { tick: self.tick + rhs.as_ticks() }
    }
}

impl AddSpecImpl<Duration> for Instant {
    open spec fn obeys_add_spec() -> bool {
        true
    }

    open spec fn add_req(self, rhs: Duration) -> bool {
        self@ + rhs@ <= u64::MAX
    }

    closed spec fn add_spec(self, rhs: Duration) -> Instant {
        Instant { tick: (self@ + rhs@) as u64 }
    }
}

impl core::ops::Sub<Instant> for Instant {
    type Output = Duration;

    /// The time from `rhs` to `self`, saturating at zero.
    fn sub(self, rhs: Instant) -> (r: Duration)
        ensures
            r@ == (if self@ < rhs@ { 0 } else { (self@ - rhs@) as nat }),
    {
        self.duration_since(rhs)
    }
}

impl SubSpecImpl<Instant> for Instant {
    open spec fn obeys_sub_spec() -> bool {
        true
    }

    open spec fn sub_req(self, rhs: Instant) -> bool {
        true
    }

    closed spec fn sub_spec(self, rhs: Instant) -> Duration {
        Duration { ticks: (if self@ < rhs@ { 0 } else { (self@ - rhs@) as nat }) as u64 }
    }
}

/// Adding a duration to an instant and measuring back from it gives the
/// duration again.
pub proof fn lemma_add_then_since(i: Instant, d: Duration)
    requires
        i@ + d@ <= u64::MAX,
    ensures
        ({
            let later = Instant { tick: (i@ + d@) as u64 };
            &&& later@ == i@ + d@
            &&& (if later@ < i@ { 0 } else { (later@ - i@) as nat }) == d@
        }),
{
}

/// Saturating subtraction undoes saturating addition when no saturation
/// happens.
pub proof fn lemma_saturating_roundtrip(a: Duration, b: Duration)
    requires
        a@ + b@ <= u64::MAX,
    ensures
        ({
            let s: nat = if a@ + b@ > u64::MAX { u64::MAX as nat } else { a@ + b@ };
            (if s < b@ { 0 } else { (s - b@) as nat }) == a@
        }),
{
}

} // verus!
