//! Time-based interpolation of a scalar property.
//!
//! An [`Animate`] moves a current value toward a target value at a fixed
//! rate of units per second.  The step is linear in elapsed time, not in
//! frame count, so the behaviour is independent of the tick rate.  Values
//! are integers, so the machine is exact: the value is transient precisely
//! while current and target differ, and it snaps to the target the moment
//! the remaining distance no longer exceeds one step.

use vstd::prelude::*;

verus! {

/// An easing state machine: current value, target value, approach rate in
/// units per second.
#[derive(Clone, Copy, Debug, PartialEq, Eq, Structural)]
pub struct Animate {
    pub current: i64,
    pub target: i64,
    pub rate: u32,
}

impl Animate {
    /// The distance moved in `elapsed_ms` milliseconds: `rate` units per
    /// second, prorated and rounded down.
    pub open spec fn spec_step(self, elapsed_ms: u64) -> int {
        self.rate * elapsed_ms / 1000
    }

    /// Where one step of `elapsed_ms` milliseconds leaves the value: toward
    /// the target along the sign of the remaining distance, snapping
    /// exactly to the target once the remaining distance does not exceed
    /// the step.
    pub open spec fn spec_animate(self, elapsed_ms: u64) -> Animate {
        let step = self.spec_step(elapsed_ms);
        let remaining = self.target - self.current;
        if remaining >= 0 {
            if remaining <= step {
                Animate { current: self.target, ..self }
            } else {
                Animate { current: (self.current + step) as i64, ..self }
            }
        } else {
            if -remaining <= step {
                Animate { current: self.target, ..self }
            } else {
                Animate { current: (self.current - step) as i64, ..self }
            }
        }
    }

    /// Makes an interpolation from `current` toward `target` at `rate`
    /// units per second.
    pub fn new(current: i64, target: i64, rate: u32) -> (r: Animate)
        ensures
            r == (Animate { current, target, rate }),
    {
        Animate { current, target, rate }
    }

    /// The value as it stands now.
    pub fn val(&self) -> (r: i64)
        ensures
            r == self.current,
    {
        self.current
    }

    /// Retargets the interpolation; the current value is kept, so the
    /// machine is transient exactly when the new target differs from it.
    pub fn to(&mut self, target: i64)
        ensures
            *final(self) == (Animate { target, ..*old(self) }),
    {
        self.target = target;
    }

    /// Jumps both current and target to `value` without animating.
    pub fn set(&mut self, value: i64)
        ensures
            *final(self) == (Animate { current: value, target: value, rate: old(self).rate }),
    {
        self.current = value;
        self.target = value;
    }

    /// Whether the value has not yet reached the target.
    pub fn is_transient(&self) -> (r: bool)
        ensures
            r == (self.current != self.target),
    {
        self.current != self.target
    }

    /// Moves the current value toward the target by `rate` units per
    /// second for `elapsed_ms` milliseconds, snapping exactly to the
    /// target once the remaining distance does not exceed the step.
    pub fn animate(&mut self, elapsed_ms: u64)
        ensures
            *final(self) == old(self).spec_animate(elapsed_ms),
    {
        proof {
            crate::arith::lemma_mul_bound(
                self.rate as int,
                elapsed_ms as int,
                0x1_0000_0000,
                0x1_0000_0000_0000_0000,
            );
        }
        let step: i128 = self.rate as i128 * elapsed_ms as i128 / 1000;
        let remaining: i128 = self.target as i128 - self.current as i128;
        if remaining >= 0 {
            if remaining <= step {
                self.current = self.target;
            } else {
                self.current = (self.current as i128 + step) as i64;
            }
        } else {
            if -remaining <= step {
                self.current = self.target;
            } else {
                self.current = (self.current as i128 - step) as i64;
            }
        }
    }
}

} // verus!
