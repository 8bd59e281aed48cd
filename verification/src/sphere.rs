//! The counter that drives the orbiting sphere.
//!
//! Each frame the sphere advances half a degree along its circle and wraps at
//! a full turn. The counter holds the angle in half-degree steps so the
//! increment and the wrap are exact; turning the angle into a position on the
//! circle is trigonometry and stays with the engine-facing code.

use vstd::prelude::*;

verus! {

/// Half-degree steps in a full turn.
pub const STEPS_PER_TURN: u16 = 720;

/// Angle of the orbiting sphere, in half-degree steps, always below a full
/// turn.
pub struct SphereCounter {
    pub half_degrees: u16,
}

impl SphereCounter {
    /// The counter is a valid angle: under one full turn.
    pub open spec fn well_formed(self) -> bool {
        self.half_degrees < STEPS_PER_TURN
    }

    /// A counter starting at angle zero.
    pub fn new() -> (r: SphereCounter)
        ensures
            r.half_degrees == 0,
            r.well_formed(),
    {
        SphereCounter { half_degrees: 0 }
    }

    /// Advance one half-degree step, wrapping at a full turn.
    pub fn step(&mut self)
        requires
            old(self).well_formed(),
        ensures
            final(self).half_degrees == (old(self).half_degrees + 1) % (STEPS_PER_TURN as int),
            final(self).well_formed(),
    {
        if self.half_degrees + 1 == STEPS_PER_TURN {
            self.half_degrees = 0;
        } else {
            self.half_degrees = self.half_degrees + 1;
        }
    }
}

} // verus!
