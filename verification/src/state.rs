//! The start and end snapshots between which one channel of a transform is
//! eased.
//!
//! A channel is *empty* while neither snapshot is set, *started* once the
//! value before the simulation step is known, and *ready* once both ends are
//! known. Only a ready channel is blended.

use crate::math::{Quat, Vec3};
use vstd::prelude::*;

verus! {

/// Start and end of the easing of a translation.
#[derive(Clone, Copy, Debug, PartialEq)]
pub struct TranslationEasingState {
    /// The translation at which the easing starts.
    pub start: Option<Vec3>,
    /// The translation at which the easing ends.
    pub end: Option<Vec3>,
}

/// Start and end of the easing of a rotation.
#[derive(Clone, Copy, Debug, PartialEq)]
pub struct RotationEasingState {
    /// The rotation at which the easing starts.
    pub start: Option<Quat>,
    /// The rotation at which the easing ends.
    pub end: Option<Quat>,
}

/// Start and end of the easing of a scale.
#[derive(Clone, Copy, Debug, PartialEq)]
pub struct ScaleEasingState {
    /// The scale at which the easing starts.
    pub start: Option<Vec3>,
    /// The scale at which the easing ends.
    pub end: Option<Vec3>,
}

impl TranslationEasingState {
    /// The state with neither snapshot set.
    pub open spec fn empty() -> TranslationEasingState {
        TranslationEasingState { start: None, end: None }
    }

    /// Neither snapshot is set.
    pub open spec fn is_empty(&self) -> bool {
        self.start is None && self.end is None
    }

    /// Only the start snapshot is set.
    pub open spec fn is_started(&self) -> bool {
        self.start is Some && self.end is None
    }

    /// Both snapshots are set.
    pub open spec fn is_ready(&self) -> bool {
        self.start is Some && self.end is Some
    }

    /// The channel is ready, and `current` equals neither snapshot.
    pub open spec fn is_left_by(&self, current: Vec3) -> bool {
        &&& self.is_ready()
        &&& !current.same_as(&self.start->Some_0)
        &&& !current.same_as(&self.end->Some_0)
    }

    /// The two snapshots of a ready channel, nothing otherwise.
    pub open spec fn snapshots(&self) -> Option<(Vec3, Vec3)> {
        if self.is_ready() {
            Some((self.start->Some_0, self.end->Some_0))
        } else {
            None
        }
    }

    /// Clears both snapshots.
    pub fn reset(&mut self)
        ensures
            *final(self) == TranslationEasingState::empty(),
    {
        self.start = None;
        self.end = None;
    }

    /// Returns both snapshots if the channel is ready.
    pub fn ready(&self) -> (ends: Option<(Vec3, Vec3)>)
        ensures
            ends == self.snapshots(),
    {
        match (self.start, self.end) {
            (Some(start), Some(end)) => Some((start, end)),
            _ => None,
        }
    }

    /// Tells whether the channel is ready and `current` has left both of its
    /// snapshots.
    pub fn left_by(&self, current: Vec3) -> (left: bool)
        ensures
            left == self.is_left_by(current),
    {
        match (self.start, self.end) {
            (Some(start), Some(end)) => current != start && current != end,
            _ => false,
        }
    }
}

impl Default for TranslationEasingState {
    fn default() -> (state: TranslationEasingState)
        ensures
            state == TranslationEasingState::empty(),
    {
        TranslationEasingState { start: None, end: None }
    }
}

impl RotationEasingState {
    /// The state with neither snapshot set.
    pub open spec fn empty() -> RotationEasingState {
        RotationEasingState { start: None, end: None }
    }

    /// Neither snapshot is set.
    pub open spec fn is_empty(&self) -> bool {
        self.start is None && self.end is None
    }

    /// Only the start snapshot is set.
    pub open spec fn is_started(&self) -> bool {
        self.start is Some && self.end is None
    }

    /// Both snapshots are set.
    pub open spec fn is_ready(&self) -> bool {
        self.start is Some && self.end is Some
    }

    /// The channel is ready, and `current` equals neither snapshot.
    pub open spec fn is_left_by(&self, current: Quat) -> bool {
        &&& self.is_ready()
        &&& !current.same_as(&self.start->Some_0)
        &&& !current.same_as(&self.end->Some_0)
    }

    /// The two snapshots of a ready channel, nothing otherwise.
    pub open spec fn snapshots(&self) -> Option<(Quat, Quat)> {
        if self.is_ready() {
            Some((self.start->Some_0, self.end->Some_0))
        } else {
            None
        }
    }

    /// Clears both snapshots.
    pub fn reset(&mut self)
        ensures
            *final(self) == RotationEasingState::empty(),
    {
        self.start = None;
        self.end = None;
    }

    /// Returns both snapshots if the channel is ready.
    pub fn ready(&self) -> (ends: Option<(Quat, Quat)>)
        ensures
            ends == self.snapshots(),
    {
        match (self.start, self.end) {
            (Some(start), Some(end)) => Some((start, end)),
            _ => None,
        }
    }

    /// Tells whether the channel is ready and `current` has left both of its
    /// snapshots.
    pub fn left_by(&self, current: Quat) -> (left: bool)
        ensures
            left == self.is_left_by(current),
    {
        match (self.start, self.end) {
            (Some(start), Some(end)) => current != start && current != end,
            _ => false,
        }
    }
}

impl Default for RotationEasingState {
    fn default() -> (state: RotationEasingState)
        ensures
            state == RotationEasingState::empty(),
    {
        RotationEasingState { start: None, end: None }
    }
}

impl ScaleEasingState {
    /// The state with neither snapshot set.
    pub open spec fn empty() -> ScaleEasingState {
        ScaleEasingState { start: None, end: None }
    }

    /// Neither snapshot is set.
    pub open spec fn is_empty(&self) -> bool {
        self.start is None && self.end is None
    }

    /// Only the start snapshot is set.
    pub open spec fn is_started(&self) -> bool {
        self.start is Some && self.end is None
    }

    /// Both snapshots are set.
    pub open spec fn is_ready(&self) -> bool {
        self.start is Some && self.end is Some
    }

    /// The channel is ready, and `current` equals neither snapshot.
    pub open spec fn is_left_by(&self, current: Vec3) -> bool {
        &&& self.is_ready()
        &&& !current.same_as(&self.start->Some_0)
        &&& !current.same_as(&self.end->Some_0)
    }

    /// The two snapshots of a ready channel, nothing otherwise.
    pub open spec fn snapshots(&self) -> Option<(Vec3, Vec3)> {
        if self.is_ready() {
            Some((self.start->Some_0, self.end->Some_0))
        } else {
            None
        }
    }

    /// Clears both snapshots.
    pub fn reset(&mut self)
        ensures
            *final(self) == ScaleEasingState::empty(),
    {
        self.start = None;
        self.end = None;
    }

    /// Returns both snapshots if the channel is ready.
    pub fn ready(&self) -> (ends: Option<(Vec3, Vec3)>)
        ensures
            ends == self.snapshots(),
    {
        match (self.start, self.end) {
            (Some(start), Some(end)) => Some((start, end)),
            _ => None,
        }
    }

    /// Tells whether the channel is ready and `current` has left both of its
    /// snapshots.
    pub fn left_by(&self, current: Vec3) -> (left: bool)
        ensures
            left == self.is_left_by(current),
    {
        match (self.start, self.end) {
            (Some(start), Some(end)) => current != start && current != end,
            _ => false,
        }
    }
}

impl Default for ScaleEasingState {
    fn default() -> (state: ScaleEasingState)
        ensures
            state == ScaleEasingState::empty(),
    {
        ScaleEasingState { start: None, end: None }
    }
}

} // verus!
