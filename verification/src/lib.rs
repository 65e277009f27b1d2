//! Easing of transforms between the steps of a fixed-rate simulation.
//!
//! A simulation that runs at a fixed rate moves its objects in steps, and a
//! display that runs faster shows every step as a jump. This library keeps,
//! for each channel of a transform (translation, rotation, scale), a start
//! and an end snapshot, and tells a host in every frame between which values
//! to blend, so that the displayed transform moves smoothly from one to the
//! other.
//!
//! - [`state`] holds the snapshots of one channel.
//! - [`easing`] is the controller: it resets the snapshots at the start of a
//!   step, detects transforms that were set from outside, and decides what is
//!   blended.
//! - [`interpolation`] and [`extrapolation`] are the two producers of
//!   snapshots, and [`hermite`] is the cubic blend that uses velocities.
//! - [`schedule`] orders the passes, and [`plugin`] adds those of the
//!   controller.
//! - [`guarantees`] states what holds of the passes taken together.
//!
//! Numbers are carried as bit patterns (see [`math`]); the library compares
//! and copies them and leaves the arithmetic of blending to the host.

pub mod background_fixed_schedule;
pub mod commands;
pub mod easing;
pub mod entity;
pub mod extrapolation;
pub mod guarantees;
pub mod hermite;
pub mod interpolation;
pub mod markers;
pub mod math;
pub mod plugin;
pub mod prelude;
pub mod schedule;
pub mod state;
pub mod tick;
pub mod velocity;
pub mod world;

pub use crate::easing::reset_easing_states_on_transform_change;
pub use crate::markers::{
    NoRotationEasing, NoScaleEasing, NoTransformEasing, NoTranslationEasing,
    NonlinearRotationEasing, NonlinearTranslationEasing,
};
pub use crate::plugin::TransformEasingPlugin;
pub use crate::schedule::TransformEasingSet;
pub use crate::state::{RotationEasingState, ScaleEasingState, TranslationEasingState};
pub use crate::tick::LastEasingTick;
pub use crate::velocity::{DummyComponent, VelocitySource};
