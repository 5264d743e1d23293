use crate::error::SimError;
use vstd::prelude::*;

verus! {

/// The microseconds in a second. Elapsed time is weighted by the tick rate
/// before it is accumulated, so one tick is worth this much accumulated time
/// whatever the rate is.
pub const MICROS_PER_SECOND: u64 = 1_000_000;

/// How many ticks fire before `accumulated` no longer exceeds the worth of
/// one tick, when each tick takes that worth away.
pub open spec fn ticks_due(accumulated: int) -> int {
    if accumulated <= 0 {
        0
    } else {
        (accumulated - 1) / (MICROS_PER_SECOND as int)
    }
}

/// What is left of `accumulated` once the ticks that are due have fired.
pub open spec fn settled(accumulated: int) -> int {
    accumulated - ticks_due(accumulated) * MICROS_PER_SECOND
}

/// The fixed-timestep accumulator. It is idle while what it has accumulated
/// does not exceed the worth of one tick, and ticking until it is idle again.
#[derive(Clone, Copy, Debug, PartialEq, Eq)]
pub struct Scheduler {
    ticks_per_second: u32,
    accumulator: u128,
}

impl Scheduler {
    /// The ticks per second of simulated time.
    pub closed spec fn rate(&self) -> nat {
        self.ticks_per_second as nat
    }

    /// The time accumulated and not yet consumed, in microseconds weighted by
    /// the rate.
    pub closed spec fn accumulated(&self) -> nat {
        self.accumulator as nat
    }

    /// No tick is due.
    pub open spec fn is_idle(&self) -> bool {
        self.accumulated() <= MICROS_PER_SECOND
    }

    /// The scheduler between two frames: the rate is positive and no tick is
    /// due.
    pub open spec fn wf(&self) -> bool {
        &&& 0 < self.rate() <= i32::MAX
        &&& self.is_idle()
    }

    /// The scheduler within a frame: the rate is positive, and the
    /// accumulator holds no more than one frame can add to an idle scheduler.
    pub open spec fn wf_within_frame(&self) -> bool {
        &&& 0 < self.rate() <= i32::MAX
        &&& self.accumulated() <= MICROS_PER_SECOND + u64::MAX * i32::MAX
    }

    /// An idle scheduler with nothing accumulated; `InvalidConfiguration`
    /// unless the rate is positive.
    pub fn new(ticks_per_second: i32) -> (result: Result<Scheduler, SimError>)
        ensures
            ticks_per_second > 0 ==> result.is_ok(),
            ticks_per_second <= 0 ==> result == Err::<Scheduler, SimError>(
                SimError::InvalidConfiguration,
            ),
            result matches Ok(scheduler) ==> {
                &&& scheduler.wf()
                &&& scheduler.rate() == ticks_per_second
                &&& scheduler.accumulated() == 0
            },
    {
        if ticks_per_second <= 0 {
            return Err(SimError::InvalidConfiguration);
        }
        Ok(Scheduler { ticks_per_second: ticks_per_second as u32, accumulator: 0 })
    }

    /// The ticks per second of simulated time.
    pub fn ticks_per_second(&self) -> (rate: u32)
        ensures
            rate == self.rate(),
    {
        self.ticks_per_second
    }

    /// The time accumulated and not yet consumed.
    pub fn accumulator(&self) -> (accumulated: u128)
        ensures
            accumulated == self.accumulated(),
    {
        self.accumulator
    }

    /// Adds the time of one frame, `elapsed_micros` microseconds, to an idle
    /// scheduler.
    pub(crate) fn accumulate(&mut self, elapsed_micros: u64)
        requires
            old(self).wf(),
        ensures
            final(self).wf_within_frame(),
            final(self).rate() == old(self).rate(),
            final(self).accumulated() == old(self).accumulated() + elapsed_micros * old(
                self,
            ).rate(),
    {
        let elapsed: u128 = elapsed_micros as u128;
        let rate: u128 = self.ticks_per_second as u128;
        assert(elapsed * rate <= u64::MAX * i32::MAX) by (nonlinear_arith)
            requires
                0 <= elapsed <= u64::MAX,
                0 <= rate <= i32::MAX,
        ;
        self.accumulator = self.accumulator + elapsed * rate;
    }

    /// Fires one tick if one is due: takes the worth of a tick from the
    /// accumulator and says so. Otherwise changes nothing.
    pub(crate) fn take_tick(&mut self) -> (fired: bool)
        requires
            old(self).wf_within_frame(),
        ensures
            final(self).wf_within_frame(),
            final(self).rate() == old(self).rate(),
            fired == !old(self).is_idle(),
            fired ==> final(self).accumulated() == old(self).accumulated() - MICROS_PER_SECOND,
            !fired ==> final(self).accumulated() == old(self).accumulated(),
            ticks_due(final(self).accumulated() as int) + (if fired { 1int } else { 0int })
                == ticks_due(old(self).accumulated() as int),
            settled(final(self).accumulated() as int) == settled(old(self).accumulated() as int),
    {
        if self.accumulator > MICROS_PER_SECOND as u128 {
            self.accumulator = self.accumulator - MICROS_PER_SECOND as u128;
            true
        } else {
            false
        }
    }

    /// One frame: adds `elapsed_micros` microseconds to the accumulator, then
    /// fires ticks until the scheduler is idle again, and returns how many
    /// have fired.
    pub fn advance(&mut self, elapsed_micros: u64) -> (ticks: u128)
        requires
            old(self).wf(),
        ensures
            final(self).wf(),
            final(self).rate() == old(self).rate(),
            ticks == ticks_due(old(self).accumulated() + elapsed_micros * old(self).rate()),
            final(self).accumulated() == settled(
                old(self).accumulated() + elapsed_micros * old(self).rate(),
            ),
    {
        self.accumulate(elapsed_micros);
        let ghost total: int = self.accumulated() as int;
        let mut ticks: u128 = 0;
        while self.take_tick()
            invariant
                self.wf_within_frame(),
                self.rate() == old(self).rate(),
                self.accumulated() <= total,
                ticks + ticks_due(self.accumulated() as int) == ticks_due(total),
                settled(self.accumulated() as int) == settled(total),
                total <= u128::MAX,
            decreases self.accumulated(),
        {
            ticks = ticks + 1;
        }
        ticks
    }
}

/// The sum of the frame times `frames`.
pub open spec fn total_elapsed(frames: Seq<nat>) -> int
    decreases frames.len(),
{
    if frames.len() == 0 {
        0
    } else {
        frames.first() + total_elapsed(frames.drop_first())
    }
}

/// The ticks that fire in all when a scheduler of rate `rate` that holds
/// `accumulated` is advanced by each of `frames` in turn.
pub open spec fn ticks_over(rate: nat, accumulated: int, frames: Seq<nat>) -> int
    decreases frames.len(),
{
    if frames.len() == 0 {
        0
    } else {
        let total = accumulated + frames.first() * rate;
        ticks_due(total) + ticks_over(rate, settled(total), frames.drop_first())
    }
}

/// The whole ticks that fit into `weighted`, a time in microseconds weighted
/// by the rate: the time divided by the duration of a tick, rounded down.
pub open spec fn whole_ticks(weighted: int) -> int {
    weighted / (MICROS_PER_SECOND as int)
}

/// `weighted` is a whole number of tick durations.
pub open spec fn on_tick_boundary(weighted: int) -> bool {
    weighted % (MICROS_PER_SECOND as int) == 0
}

/// The sum of frame times is not negative.
pub proof fn lemma_total_elapsed_nonnegative(frames: Seq<nat>)
    ensures
        0 <= total_elapsed(frames),
    decreases frames.len(),
{
    if frames.len() > 0 {
        lemma_total_elapsed_nonnegative(frames.drop_first());
    }
}

/// Settling first and adding more time afterwards fires as many ticks as
/// adding the time at once, and leaves the same behind.
pub proof fn lemma_settle_then_add(accumulated: int, more: int)
    requires
        0 <= accumulated,
        0 <= more,
    ensures
        0 <= settled(accumulated) <= MICROS_PER_SECOND,
        ticks_due(accumulated) + ticks_due(settled(accumulated) + more) == ticks_due(
            accumulated + more,
        ),
        settled(settled(accumulated) + more) == settled(accumulated + more),
{
}

/// Frame-rate independence: the ticks that a sequence of frames fires on an
/// idle scheduler depend on the sum of the frame times alone.
pub proof fn lemma_ticks_depend_on_total(rate: nat, accumulated: int, frames: Seq<nat>)
    requires
        0 <= accumulated <= MICROS_PER_SECOND,
    ensures
        ticks_over(rate, accumulated, frames) == ticks_due(
            accumulated + total_elapsed(frames) * rate,
        ),
    decreases frames.len(),
{
    if frames.len() > 0 {
        let first = accumulated + frames.first() * rate;
        let rest = frames.drop_first();
        lemma_total_elapsed_nonnegative(rest);
        assert(frames.first() * rate >= 0) by (nonlinear_arith)
            requires
                frames.first() >= 0,
                rate >= 0,
        ;
        assert(total_elapsed(rest) * rate >= 0) by (nonlinear_arith)
            requires
                total_elapsed(rest) >= 0,
                rate >= 0,
        ;
        assert(total_elapsed(frames) * rate == frames.first() * rate + total_elapsed(rest) * rate)
            by (nonlinear_arith)
            requires
                total_elapsed(frames) == frames.first() + total_elapsed(rest),
        ;
        lemma_settle_then_add(first, total_elapsed(rest) * rate);
        lemma_ticks_depend_on_total(rate, settled(first), rest);
    }
}

/// However a stretch of time is cut into frames, it fires the same number
/// of ticks: one frame of a second does what ten frames of a tenth do.
pub proof fn lemma_chunking_is_irrelevant(rate: nat, one: Seq<nat>, other: Seq<nat>)
    requires
        total_elapsed(one) == total_elapsed(other),
    ensures
        ticks_over(rate, 0, one) == ticks_over(rate, 0, other),
{
    lemma_ticks_depend_on_total(rate, 0, one);
    lemma_ticks_depend_on_total(rate, 0, other);
}

/// The ticks fired from rest are the elapsed time divided by the duration of
/// a tick, rounded down, unless the elapsed time is a whole number of tick
/// durations and not zero.
pub proof fn lemma_tick_count_is_floor(rate: nat, frames: Seq<nat>)
    requires
        total_elapsed(frames) * rate == 0 || !on_tick_boundary(total_elapsed(frames) * rate),
    ensures
        ticks_over(rate, 0, frames) == whole_ticks(total_elapsed(frames) * rate),
{
    lemma_ticks_depend_on_total(rate, 0, frames);
    lemma_total_elapsed_nonnegative(frames);
    assert(total_elapsed(frames) * rate >= 0) by (nonlinear_arith)
        requires
            total_elapsed(frames) >= 0,
            rate >= 0,
    ;
}

/// Where the elapsed time is a whole number of tick durations and not zero,
/// one tick fewer has fired: a tick fires only once the accumulated time
/// exceeds its duration, so the last one is still to come.
pub proof fn lemma_tick_count_on_boundary(rate: nat, frames: Seq<nat>)
    requires
        total_elapsed(frames) * rate != 0,
        on_tick_boundary(total_elapsed(frames) * rate),
    ensures
        ticks_over(rate, 0, frames) == whole_ticks(total_elapsed(frames) * rate) - 1,
{
    lemma_ticks_depend_on_total(rate, 0, frames);
    lemma_total_elapsed_nonnegative(frames);
    assert(total_elapsed(frames) * rate >= 0) by (nonlinear_arith)
        requires
            total_elapsed(frames) >= 0,
            rate >= 0,
    ;
}

} // verus!
