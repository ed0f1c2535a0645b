use vstd::prelude::*;

verus! {

/// Speed given to a stalled agent per second of the step, in a random direction.
pub const BOID_START_ACCEL: u32 = 10;

/// How an agent's speed is corrected after the neighbour forces.
#[derive(Clone, Copy, Debug, PartialEq, Eq, Structural)]
pub enum Rescale {
    /// The speed is already within bounds.
    Keep,
    /// Scale the velocity up to exactly the minimum speed, keeping its direction.
    ToMin,
    /// Scale the velocity down to exactly the maximum speed, keeping its direction.
    ToMax,
}

/// The floor applies only in a step of positive length; the cap applies always.
pub open spec fn rescale_spec(dt_positive: bool, below_min: bool, above_max: bool) -> Rescale {
    if dt_positive && below_min {
        Rescale::ToMin
    } else if above_max {
        Rescale::ToMax
    } else {
        Rescale::Keep
    }
}

/// Whether a stalled agent (zero velocity) is given a fresh heading of speed
/// `BOID_START_ACCEL * dt` before the speed floor is applied. A step of length
/// zero leaves it stalled.
pub fn needs_heading(dt_positive: bool, stalled: bool) -> (r: bool)
    ensures
        r == (dt_positive && stalled),
{
    dt_positive && stalled
}

/// The speed correction, from the tests on the velocity after any fresh heading:
/// `below_min` when its length is under the minimum speed, `above_max` when over
/// the maximum. Raising to the minimum gives a speed of at most the maximum, so
/// the cap is not needed after it.
pub fn rescale(dt_positive: bool, below_min: bool, above_max: bool) -> (r: Rescale)
    ensures
        r == rescale_spec(dt_positive, below_min, above_max),
{
    if dt_positive && below_min {
        Rescale::ToMin
    } else if above_max {
        Rescale::ToMax
    } else {
        Rescale::Keep
    }
}

} // verus!
