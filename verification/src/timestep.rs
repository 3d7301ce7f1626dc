//! Fixed-timestep accumulator.
//!
//! Physics advances in steps of one sixtieth of a second, whatever the frame
//! rate. Elapsed wall-clock time is collected in an accumulator and paid out
//! in whole steps; what is left over waits for the next frame. Time is kept
//! in units of a third of a nanosecond, so that a nanosecond is 3 units, a
//! millisecond 3 000 000 units and a step exactly 50 000 000 units, and no
//! rounding ever happens.

use vstd::prelude::*;

verus! {

/// Length of one physics step, in accumulator units.
pub const STEP_UNITS: u64 = 50_000_000;

/// Accumulator units per millisecond of wall-clock time.
pub const UNITS_PER_MILLI: u64 = 3_000_000;

/// Accumulator units per nanosecond of wall-clock time.
pub const UNITS_PER_NANO: u64 = 3;

/// A span of milliseconds in accumulator units.
pub open spec fn units_of_millis(millis: nat) -> nat {
    UNITS_PER_MILLI as nat * millis
}

/// A span of nanoseconds in accumulator units.
pub open spec fn units_of_nanos(nanos: nat) -> nat {
    UNITS_PER_NANO as nat * nanos
}

/// Whole steps that a frame pays out when it starts with `units` left over
/// and `added` more units have elapsed.
pub open spec fn frame_steps(units: nat, added: nat) -> nat {
    (units + added) / STEP_UNITS as nat
}

/// What a frame leaves in the accumulator.
pub open spec fn frame_rest(units: nat, added: nat) -> nat {
    (units + added) % STEP_UNITS as nat
}

/// Total elapsed time of a sequence of frame deltas, in accumulator units.
pub open spec fn total_units(deltas: Seq<nat>) -> nat
    decreases deltas.len(),
{
    if deltas.len() == 0 {
        0
    } else {
        deltas[0] + total_units(deltas.drop_first())
    }
}

/// Steps paid out over a sequence of frames, one delta per frame.
pub open spec fn total_steps(units: nat, deltas: Seq<nat>) -> nat
    decreases deltas.len(),
{
    if deltas.len() == 0 {
        0
    } else {
        frame_steps(units, deltas[0]) + total_steps(
            frame_rest(units, deltas[0]),
            deltas.drop_first(),
        )
    }
}

/// What is left in the accumulator after a sequence of frames.
pub open spec fn rest_after(units: nat, deltas: Seq<nat>) -> nat
    decreases deltas.len(),
{
    if deltas.len() == 0 {
        units
    } else {
        rest_after(frame_rest(units, deltas[0]), deltas.drop_first())
    }
}

pub struct StepAccumulator {
    units: u64,
}

impl StepAccumulator {
    #[verifier::type_invariant]
    spec fn below_one_step(self) -> bool {
        self.units < STEP_UNITS
    }

    /// Time not yet paid out as a step, in accumulator units.
    pub closed spec fn units(&self) -> nat {
        self.units as nat
    }

    pub fn new() -> (acc: StepAccumulator)
        ensures
            acc.units() == 0,
    {
        StepAccumulator { units: 0 }
    }

    /// Time not yet paid out as a step, in accumulator units.
    pub fn pending_units(&self) -> (units: u64)
        ensures
            units == self.units(),
            units < STEP_UNITS,
    {
        proof {
            use_type_invariant(self);
        }
        self.units
    }

    /// Accounts for `added` units of wall-clock time and returns the number
    /// of physics steps that are now due.
    pub(crate) fn advance_wide(&mut self, added: u128) -> (steps: u64)
        requires
            added <= UNITS_PER_MILLI * u64::MAX,
        ensures
            steps == frame_steps(old(self).units(), added as nat),
            final(self).units() == frame_rest(old(self).units(), added as nat),
    {
        proof {
            use_type_invariant(&*self);
        }
        let total: u128 = self.units as u128 + added;
        let steps: u128 = total / 50_000_000u128;
        let rest: u128 = total % 50_000_000u128;
        assert(steps <= u64::MAX);
        self.units = rest as u64;
        steps as u64
    }

    /// Accounts for `elapsed_units` accumulator units of wall-clock time and
    /// returns the number of physics steps that are now due.
    pub fn advance_units(&mut self, elapsed_units: u64) -> (steps: u64)
        ensures
            steps == frame_steps(old(self).units(), elapsed_units as nat),
            final(self).units() == frame_rest(old(self).units(), elapsed_units as nat),
    {
        self.advance_wide(elapsed_units as u128)
    }

    /// Accounts for `elapsed_nanos` nanoseconds of wall-clock time and
    /// returns the number of physics steps that are now due.
    pub fn advance_nanos(&mut self, elapsed_nanos: u64) -> (steps: u64)
        ensures
            steps == frame_steps(old(self).units(), units_of_nanos(elapsed_nanos as nat)),
            final(self).units() == frame_rest(
                old(self).units(),
                units_of_nanos(elapsed_nanos as nat),
            ),
    {
        self.advance_wide(3u128 * (elapsed_nanos as u128))
    }

    /// Accounts for `elapsed_millis` milliseconds of wall-clock time and
    /// returns the number of physics steps that are now due.
    pub fn advance(&mut self, elapsed_millis: u64) -> (steps: u64)
        ensures
            steps == frame_steps(old(self).units(), units_of_millis(elapsed_millis as nat)),
            final(self).units() == frame_rest(
                old(self).units(),
                units_of_millis(elapsed_millis as nat),
            ),
    {
        self.advance_wide(3_000_000u128 * (elapsed_millis as u128))
    }

    pub fn duplicate(&self) -> (copy: StepAccumulator)
        ensures
            copy.units() == self.units(),
    {
        proof {
            use_type_invariant(self);
        }
        StepAccumulator { units: self.units }
    }
}

/// Paying out steps frame by frame loses nothing: after any sequence of
/// frames, the steps taken and the time still held add up to the time that
/// went in.
pub proof fn lemma_steps_account_for_all_time(units: nat, deltas: Seq<nat>)
    ensures
        total_steps(units, deltas) * STEP_UNITS as nat + rest_after(units, deltas) == units
            + total_units(deltas),
        units < STEP_UNITS ==> rest_after(units, deltas) < STEP_UNITS,
    decreases deltas.len(),
{
    if deltas.len() > 0 {
        lemma_steps_account_for_all_time(frame_rest(units, deltas[0]), deltas.drop_first());
    }
}

/// The number of steps depends only on the total elapsed time, not on how it
/// was cut into frames.
pub proof fn lemma_steps_depend_on_total_only(units: nat, deltas: Seq<nat>)
    requires
        units < STEP_UNITS,
    ensures
        total_steps(units, deltas) == (units + total_units(deltas)) / STEP_UNITS as nat,
        rest_after(units, deltas) == (units + total_units(deltas)) % STEP_UNITS as nat,
{
    lemma_steps_account_for_all_time(units, deltas);
}

/// Deltas that add up to exactly `k` steps make the world advance exactly `k`
/// times and leave nothing in the accumulator, however they are chunked.
pub proof fn lemma_exact_steps(deltas: Seq<nat>, k: nat)
    requires
        total_units(deltas) == k * STEP_UNITS as nat,
    ensures
        total_steps(0, deltas) == k,
        rest_after(0, deltas) == 0,
{
    lemma_steps_depend_on_total_only(0, deltas);
}

/// Two ways of chunking the same elapsed time give the same number of steps.
pub proof fn lemma_chunking_is_irrelevant(units: nat, first: Seq<nat>, second: Seq<nat>)
    requires
        units < STEP_UNITS,
        total_units(first) == total_units(second),
    ensures
        total_steps(units, first) == total_steps(units, second),
        rest_after(units, first) == rest_after(units, second),
{
    lemma_steps_depend_on_total_only(units, first);
    lemma_steps_depend_on_total_only(units, second);
}

/// Frames of a half step, a half step and two steps pay out no step, one
/// step and two steps, and leave nothing.
pub proof fn lemma_half_steps()
    ensures
        frame_steps(0, 25_000_000) == 0,
        frame_steps(frame_rest(0, 25_000_000), 25_000_000) == 1,
        frame_steps(frame_rest(frame_rest(0, 25_000_000), 25_000_000), 100_000_000) == 2,
        frame_rest(frame_rest(frame_rest(0, 25_000_000), 25_000_000), 100_000_000) == 0,
{
}

} // verus!
