//! Where velocities come from.
//!
//! The library keeps no velocity of its own. A host names the two attributes
//! in which it keeps the velocity before and after a step, and says how each
//! is read as a vector.

use crate::math::Vec3;
use vstd::prelude::*;

verus! {

/// Reads the velocity before and after a step from the attributes in which a
/// host keeps them.
///
/// A reading depends on the attribute alone: `previous` and `current` return
/// what `previous_reading` and `current_reading` say of it. The library
/// relies on that for every source that a host supplies. A source that is
/// written without the verifier gives the two readings as functions with the
/// same bodies as `previous` and `current`.
///
/// Easing that needs only the velocity after the step, such as
/// extrapolation, never calls `previous`.
pub trait VelocitySource {
    /// The attribute that stores the velocity before the step.
    type Previous;

    /// The attribute that stores the velocity after the step.
    type Current;

    /// The velocity before the step, as the attribute holds it.
    spec fn previous_reading(start: &Self::Previous) -> Vec3;

    /// The velocity after the step, as the attribute holds it.
    spec fn current_reading(end: &Self::Current) -> Vec3;

    /// Returns the velocity before the step.
    fn previous(start: &Self::Previous) -> (velocity: Vec3)
        ensures
            velocity == Self::previous_reading(start),
    ;

    /// Returns the velocity after the step.
    fn current(end: &Self::Current) -> (velocity: Vec3)
        ensures
            velocity == Self::current_reading(end),
    ;
}

/// The attribute of the source that has no velocity. It holds nothing and
/// cannot be built outside this module.
#[derive(Debug)]
pub struct DummyComponent {
    unit: (),
}

/// The source for channels that need no velocity: both readings are zero.
impl VelocitySource for () {
    type Previous = DummyComponent;

    type Current = DummyComponent;

    open spec fn previous_reading(start: &DummyComponent) -> Vec3 {
        Vec3::zero_spec()
    }

    open spec fn current_reading(end: &DummyComponent) -> Vec3 {
        Vec3::zero_spec()
    }

    fn previous(start: &DummyComponent) -> (velocity: Vec3)
        ensures
            velocity == Vec3::zero_spec(),
    {
        Vec3::zero()
    }

    fn current(end: &DummyComponent) -> (velocity: Vec3)
        ensures
            velocity == Vec3::zero_spec(),
    {
        Vec3::zero()
    }
}

} // verus!
