//! One eased object: its displayed transform, the date of the last write to
//! it, the easing state of each channel that takes part in easing, and the
//! markers that switch easing on and off.

use crate::math::{Quat, Transform, Vec3};
use crate::state::{RotationEasingState, ScaleEasingState, TranslationEasingState};
use vstd::prelude::*;

verus! {

/// The markers that an entity carries. Each field tells whether the marker of
/// that name is present.
#[derive(Clone, Copy, Debug)]
pub struct Markers {
    pub no_transform_easing: bool,
    pub no_translation_easing: bool,
    pub no_rotation_easing: bool,
    pub no_scale_easing: bool,
    pub nonlinear_translation_easing: bool,
    pub nonlinear_rotation_easing: bool,
    pub transform_interpolation: bool,
    pub translation_interpolation: bool,
    pub rotation_interpolation: bool,
    pub scale_interpolation: bool,
    pub transform_extrapolation: bool,
    pub translation_extrapolation: bool,
    pub rotation_extrapolation: bool,
    pub transform_hermite_easing: bool,
    pub translation_hermite_easing: bool,
    pub rotation_hermite_easing: bool,
}

impl Markers {
    /// No marker at all.
    pub open spec fn none() -> Markers {
        Markers {
            no_transform_easing: false,
            no_translation_easing: false,
            no_rotation_easing: false,
            no_scale_easing: false,
            nonlinear_translation_easing: false,
            nonlinear_rotation_easing: false,
            transform_interpolation: false,
            translation_interpolation: false,
            rotation_interpolation: false,
            scale_interpolation: false,
            transform_extrapolation: false,
            translation_extrapolation: false,
            rotation_extrapolation: false,
            transform_hermite_easing: false,
            translation_hermite_easing: false,
            rotation_hermite_easing: false,
        }
    }
}

impl Default for Markers {
    fn default() -> (markers: Markers)
        ensures
            markers == Markers::none(),
    {
        Markers {
            no_transform_easing: false,
            no_translation_easing: false,
            no_rotation_easing: false,
            no_scale_easing: false,
            nonlinear_translation_easing: false,
            nonlinear_rotation_easing: false,
            transform_interpolation: false,
            translation_interpolation: false,
            rotation_interpolation: false,
            scale_interpolation: false,
            transform_extrapolation: false,
            translation_extrapolation: false,
            rotation_extrapolation: false,
            transform_hermite_easing: false,
            translation_hermite_easing: false,
            rotation_hermite_easing: false,
        }
    }
}

/// An object whose transform can be eased.
#[derive(Clone, Copy, Debug)]
pub struct EasedEntity {
    /// The displayed transform.
    pub transform: Transform,
    /// The tick of the run that last wrote to the transform.
    pub transform_changed: u32,
    /// The easing state of the translation, if the entity has one.
    pub translation_easing: Option<TranslationEasingState>,
    /// The easing state of the rotation, if the entity has one.
    pub rotation_easing: Option<RotationEasingState>,
    /// The easing state of the scale, if the entity has one.
    pub scale_easing: Option<ScaleEasingState>,
    /// The markers that the entity carries.
    pub markers: Markers,
}

impl EasedEntity {
    /// The entity with the translation replaced, the write dated `tick`.
    pub open spec fn with_translation(self, translation: Vec3, tick: u32) -> EasedEntity {
        EasedEntity {
            transform: Transform { translation, ..self.transform },
            transform_changed: tick,
            ..self
        }
    }

    /// The entity with the rotation replaced, the write dated `tick`.
    pub open spec fn with_rotation(self, rotation: Quat, tick: u32) -> EasedEntity {
        EasedEntity {
            transform: Transform { rotation, ..self.transform },
            transform_changed: tick,
            ..self
        }
    }

    /// The entity with the scale replaced, the write dated `tick`.
    pub open spec fn with_scale(self, scale: Vec3, tick: u32) -> EasedEntity {
        EasedEntity {
            transform: Transform { scale, ..self.transform },
            transform_changed: tick,
            ..self
        }
    }

    /// The entity has an easing state for at least one channel.
    pub open spec fn has_easing_state(self) -> bool {
        self.translation_easing is Some || self.rotation_easing is Some || self.scale_easing is Some
    }

    /// An entity that carries a transform written at `tick`, no easing state
    /// and no marker.
    pub fn new(transform: Transform, tick: u32) -> (entity: EasedEntity)
        ensures
            entity == (EasedEntity {
                transform,
                transform_changed: tick,
                translation_easing: None,
                rotation_easing: None,
                scale_easing: None,
                markers: Markers::none(),
            }),
    {
        EasedEntity {
            transform,
            transform_changed: tick,
            translation_easing: None,
            rotation_easing: None,
            scale_easing: None,
            markers: Markers::default(),
        }
    }

    /// Writes the translation in the run dated `tick`.
    pub fn set_translation(&mut self, translation: Vec3, tick: u32)
        ensures
            *final(self) == old(self).with_translation(translation, tick),
    {
        self.transform.translation = translation;
        self.transform_changed = tick;
    }

    /// Writes the rotation in the run dated `tick`.
    pub fn set_rotation(&mut self, rotation: Quat, tick: u32)
        ensures
            *final(self) == old(self).with_rotation(rotation, tick),
    {
        self.transform.rotation = rotation;
        self.transform_changed = tick;
    }

    /// Writes the scale in the run dated `tick`.
    pub fn set_scale(&mut self, scale: Vec3, tick: u32)
        ensures
            *final(self) == old(self).with_scale(scale, tick),
    {
        self.transform.scale = scale;
        self.transform_changed = tick;
    }

    /// Writes the whole transform in the run dated `tick`.
    pub fn set_transform(&mut self, transform: Transform, tick: u32)
        ensures
            *final(self) == (EasedEntity { transform, transform_changed: tick, ..*old(self) }),
    {
        self.transform = transform;
        self.transform_changed = tick;
    }
}

} // verus!
