//! Injected elapsed framework time and a manually advanced clock.
//!
//! Time is observed only through the [`Clock`] trait and advanced only by
//! explicit requests. No host clock is read here.
use vstd::prelude::*;

verus! {

/// Nanoseconds in one second.
pub const NANOS_PER_SEC: u128 = 1_000_000_000;

/// The largest representable elapsed time in nanoseconds: `u64::MAX`
/// seconds plus 999 999 999 nanoseconds, the range of a standard duration.
pub const MAX_ELAPSED_NANOS: u128 = 18_446_744_073_709_551_615_999_999_999;

/// A span of elapsed time with nanosecond precision, over the same range
/// as a standard library duration.
#[derive(Clone, Copy, Debug, PartialEq, Eq, Structural, PartialOrd, Ord, Hash)]
pub struct ElapsedTime {
    nanos: u128,
}

impl View for ElapsedTime {
    type V = nat;

    closed spec fn view(&self) -> nat {
        self.nanos as nat
    }
}

impl ElapsedTime {
    /// Every span stays within the representable range.
    #[verifier::type_invariant]
    spec fn within_range(self) -> bool {
        self.nanos <= MAX_ELAPSED_NANOS
    }

    /// No elapsed time.
    pub fn zero() -> (elapsed: Self)
        ensures
            elapsed@ == 0,
    {
        ElapsedTime { nanos: 0 }
    }

    /// The largest representable elapsed time.
    pub fn max() -> (elapsed: Self)
        ensures
            elapsed@ == MAX_ELAPSED_NANOS,
    {
        ElapsedTime { nanos: MAX_ELAPSED_NANOS }
    }

    /// Whole seconds.
    pub fn from_secs(secs: u64) -> (elapsed: Self)
        ensures
            elapsed@ == secs * NANOS_PER_SEC,
    {
        proof {
            assert(secs * NANOS_PER_SEC <= 18_446_744_073_709_551_615 * NANOS_PER_SEC) by (nonlinear_arith)
                requires
                    secs <= 18_446_744_073_709_551_615u64,
            ;
        }
        ElapsedTime { nanos: secs as u128 * NANOS_PER_SEC }
    }

    /// Whole milliseconds.
    pub fn from_millis(millis: u64) -> (elapsed: Self)
        ensures
            elapsed@ == millis * 1_000_000,
    {
        proof {
            assert(millis * 1_000_000 <= 18_446_744_073_709_551_615 * 1_000_000) by (nonlinear_arith)
                requires
                    millis <= 18_446_744_073_709_551_615u64,
            ;
        }
        ElapsedTime { nanos: millis as u128 * 1_000_000 }
    }

    /// Whole nanoseconds.
    pub fn from_nanos(nanos: u64) -> (elapsed: Self)
        ensures
            elapsed@ == nanos,
    {
        ElapsedTime { nanos: nanos as u128 }
    }

    /// Seconds plus nanoseconds, where the total stays representable.
    pub fn new(secs: u64, nanos: u32) -> (elapsed: Self)
        requires
            secs * NANOS_PER_SEC + nanos <= MAX_ELAPSED_NANOS,
        ensures
            elapsed@ == secs * NANOS_PER_SEC + nanos,
    {
        ElapsedTime { nanos: secs as u128 * NANOS_PER_SEC + nanos as u128 }
    }

    /// Total whole nanoseconds.
    pub fn as_nanos(&self) -> (nanos: u128)
        ensures
            nanos == self@,
            nanos <= MAX_ELAPSED_NANOS,
    {
        proof {
            use_type_invariant(self);
        }
        self.nanos
    }

    /// Whole seconds, discarding the fractional part.
    pub fn as_secs(&self) -> (secs: u64)
        ensures
            secs == self@ / (NANOS_PER_SEC as nat),
    {
        proof {
            use_type_invariant(self);
        }
        (self.nanos / NANOS_PER_SEC) as u64
    }

    /// Fractional part in nanoseconds.
    pub fn subsec_nanos(&self) -> (nanos: u32)
        ensures
            nanos == self@ % (NANOS_PER_SEC as nat),
    {
        (self.nanos % NANOS_PER_SEC) as u32
    }

    /// Adds two spans, or returns `None` when the sum is not representable.
    pub fn checked_add(self, other: Self) -> (sum: Option<Self>)
        ensures
            sum == elapsed_sum(self, other),
            sum is Some <==> self@ + other@ <= MAX_ELAPSED_NANOS,
            sum matches Some(total) ==> total@ == self@ + other@,
    {
        match self.nanos.checked_add(other.nanos) {
            Some(total) => {
                if total <= MAX_ELAPSED_NANOS {
                    Some(ElapsedTime { nanos: total })
                } else {
                    None
                }
            },
            None => None,
        }
    }
}

/// The sum of two spans when it is representable.
pub closed spec fn elapsed_sum(first: ElapsedTime, second: ElapsedTime) -> Option<ElapsedTime> {
    if first@ + second@ <= MAX_ELAPSED_NANOS {
        Some(ElapsedTime { nanos: (first@ + second@) as u128 })
    } else {
        None
    }
}

/// A sum is defined exactly when it is representable, and then its view is
/// the sum of the views.
pub proof fn lemma_elapsed_sum(first: ElapsedTime, second: ElapsedTime)
    ensures
        elapsed_sum(first, second) is Some <==> first@ + second@ <= MAX_ELAPSED_NANOS,
        elapsed_sum(first, second) matches Some(total) ==> total@ == first@ + second@,
{
}

/// Elapsed time from the origin of one framework clock.
///
/// Ordering is meaningful only for readings of the same clock.
#[derive(Clone, Copy, Debug, PartialEq, Eq, Structural, PartialOrd, Ord, Hash)]
pub struct FrameworkInstant(pub ElapsedTime);

impl View for FrameworkInstant {
    type V = nat;

    open spec fn view(&self) -> nat {
        self.0@
    }
}

impl FrameworkInstant {
    /// The origin of a framework clock.
    pub fn zero() -> (instant: Self)
        ensures
            instant@ == 0,
    {
        FrameworkInstant(ElapsedTime::zero())
    }

    /// Creates an instant at an explicit elapsed span from a clock origin.
    pub fn from_elapsed(elapsed: ElapsedTime) -> (instant: Self)
        ensures
            instant.0 == elapsed,
    {
        FrameworkInstant(elapsed)
    }

    /// Returns elapsed time from the framework clock origin.
    pub fn elapsed(self) -> (elapsed: ElapsedTime)
        ensures
            elapsed == self.0,
    {
        self.0
    }

    /// Whether this reading is strictly earlier than `other`.
    pub fn is_before(self, other: Self) -> (before: bool)
        ensures
            before == (self@ < other@),
    {
        self.0.as_nanos() < other.0.as_nanos()
    }
}

/// Read access to elapsed framework time.
///
/// Reading observes the current instant without advancing time.
pub trait Clock {
    /// Returns the current elapsed instant for this clock.
    fn now(&self) -> FrameworkInstant;
}

/// Failure to advance a [`ManualClock`].
#[derive(Clone, Copy, Debug, PartialEq, Eq, Structural)]
pub enum ManualClockAdvanceError {
    /// Adding the requested span would exceed the representable range.
    Overflow {
        /// Instant retained by the clock after the rejected advance.
        current: FrameworkInstant,
        /// Span that could not be added.
        advance: ElapsedTime,
    },
}

/// A framework clock advanced only by explicit caller requests.
///
/// New clocks start at zero. Reads and zero advances do not move time; a
/// rejected overflowing advance leaves the current instant unchanged.
#[derive(Debug, PartialEq, Eq, Structural)]
pub struct ManualClock {
    current: FrameworkInstant,
}

/// The outcome of advancing a manual clock at `current` by `duration`.
pub open spec fn manual_advance(current: FrameworkInstant, duration: ElapsedTime) -> Result<
    FrameworkInstant,
    ManualClockAdvanceError,
> {
    match elapsed_sum(current.0, duration) {
        Some(elapsed) => Ok(FrameworkInstant(elapsed)),
        None => Err(ManualClockAdvanceError::Overflow { current, advance: duration }),
    }
}

impl ManualClock {
    /// The instant the clock currently reports.
    pub closed spec fn reading(&self) -> FrameworkInstant {
        self.current
    }

    /// Creates a manual clock at its zero origin.
    pub fn new() -> (clock: Self)
        ensures
            clock.reading()@ == 0,
    {
        ManualClock { current: FrameworkInstant::zero() }
    }

    /// Creates a manual clock at an explicit elapsed instant.
    pub fn from_elapsed(elapsed: ElapsedTime) -> (clock: Self)
        ensures
            clock.reading() == FrameworkInstant(elapsed),
    {
        ManualClock { current: FrameworkInstant::from_elapsed(elapsed) }
    }

    /// Advances the clock by one span and returns the new instant.
    ///
    /// A zero span is a successful no-op. An unrepresentable result is
    /// rejected without changing the clock.
    pub fn advance(&mut self, duration: ElapsedTime) -> (result: Result<
        FrameworkInstant,
        ManualClockAdvanceError,
    >)
        ensures
            result == manual_advance(old(self).reading(), duration),
            result is Ok <==> old(self).reading()@ + duration@ <= MAX_ELAPSED_NANOS,
            result matches Ok(instant) ==> instant@ == old(self).reading()@ + duration@,
            result matches Err(error) ==> error == (ManualClockAdvanceError::Overflow {
                current: old(self).reading(),
                advance: duration,
            }),
            result matches Ok(instant) ==> final(self).reading() == instant,
            result is Err ==> final(self).reading() == old(self).reading(),
    {
        match self.current.elapsed().checked_add(duration) {
            None => Err(ManualClockAdvanceError::Overflow { current: self.current, advance: duration }),
            Some(elapsed) => {
                self.current = FrameworkInstant::from_elapsed(elapsed);
                Ok(self.current)
            },
        }
    }
}

impl Default for ManualClock {
    fn default() -> (clock: Self)
        ensures
            clock.reading()@ == 0,
    {
        ManualClock::new()
    }
}

impl Clock for ManualClock {
    fn now(&self) -> (instant: FrameworkInstant)
        ensures
            instant == self.reading(),
    {
        self.current
    }
}

/// A zero advance always succeeds and leaves the reading unchanged.
pub proof fn lemma_zero_advance_is_identity(current: FrameworkInstant, zero: ElapsedTime)
    requires
        zero@ == 0,
        current@ <= MAX_ELAPSED_NANOS,
    ensures
        manual_advance(current, zero) == Ok::<FrameworkInstant, ManualClockAdvanceError>(current),
{
}

/// Successful advances never move a clock backwards.
pub proof fn lemma_advance_is_monotonic(current: FrameworkInstant, duration: ElapsedTime)
    ensures
        manual_advance(current, duration) matches Ok(next) ==> current@ <= next@,
{
}

/// Advances are cumulative: two successful advances reach the same instant
/// as one advance by their sum.
pub proof fn lemma_advances_are_cumulative(
    current: FrameworkInstant,
    first: ElapsedTime,
    second: ElapsedTime,
    combined: ElapsedTime,
)
    requires
        combined@ == first@ + second@,
        manual_advance(current, first) is Ok,
        manual_advance(manual_advance(current, first)->Ok_0, second) is Ok,
    ensures
        manual_advance(current, combined) == manual_advance(
            manual_advance(current, first)->Ok_0,
            second,
        ),
{
}

} // verus!
