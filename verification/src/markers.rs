//! The markers by which easing is switched on and off for one entity, and
//! what adding each of them brings along.
//!
//! A marker that stands for several others brings those; a marker that
//! switches the easing of a channel on brings the easing state of that
//! channel, empty, unless the entity has one already. Nothing is taken away
//! again when a marker is removed.

use crate::entity::{EasedEntity, Markers};
use crate::math::Transform;
use crate::schedule::RequiredComponents;
use crate::state::{RotationEasingState, ScaleEasingState, TranslationEasingState};
use vstd::prelude::*;

verus! {

/// A marker that can be added to an entity.
pub trait Marker: Sized {
    /// The entity after the marker was added to it.
    spec fn inserted(entity: EasedEntity, required: RequiredComponents) -> EasedEntity;

    /// Adds the marker to the entity, with everything that it requires.
    fn insert(self, entity: &mut EasedEntity, required: &RequiredComponents)
        ensures
            *final(entity) == Self::inserted(*old(entity), *required),
    ;

    /// Adding the marker never breaks what the markers of the entity
    /// require, changes no easing state that the entity has, gives a new
    /// easing state no snapshot, and leaves the transform alone.
    proof fn inserted_keeps_requirements(entity: EasedEntity, required: RequiredComponents)
        ensures
            entity.requirements_met(required) ==> Self::inserted(
                entity,
                required,
            ).requirements_met(required),
            Self::inserted(entity, required).is_grown_from(entity),
    ;
}

/// The easing state that an entity has once one is required: the one it had,
/// or an empty one.
pub open spec fn translation_state_or_empty(state: Option<TranslationEasingState>) -> Option<
    TranslationEasingState,
> {
    if state is Some {
        state
    } else {
        Some(TranslationEasingState::empty())
    }
}

/// The easing state that an entity has once one is required: the one it had,
/// or an empty one.
pub open spec fn rotation_state_or_empty(state: Option<RotationEasingState>) -> Option<
    RotationEasingState,
> {
    if state is Some {
        state
    } else {
        Some(RotationEasingState::empty())
    }
}

/// The easing state that an entity has once one is required: the one it had,
/// or an empty one.
pub open spec fn scale_state_or_empty(state: Option<ScaleEasingState>) -> Option<ScaleEasingState> {
    if state is Some {
        state
    } else {
        Some(ScaleEasingState::empty())
    }
}

/// Returns the easing state that was there, or an empty one.
fn translation_state_or_default(state: Option<TranslationEasingState>) -> (required: Option<
    TranslationEasingState,
>)
    ensures
        required == translation_state_or_empty(state),
{
    match state {
        Some(state) => Some(state),
        None => Some(TranslationEasingState::default()),
    }
}

/// Returns the easing state that was there, or an empty one.
fn rotation_state_or_default(state: Option<RotationEasingState>) -> (required: Option<
    RotationEasingState,
>)
    ensures
        required == rotation_state_or_empty(state),
{
    match state {
        Some(state) => Some(state),
        None => Some(RotationEasingState::default()),
    }
}

/// Returns the easing state that was there, or an empty one.
fn scale_state_or_default(state: Option<ScaleEasingState>) -> (required: Option<ScaleEasingState>)
    ensures
        required == scale_state_or_empty(state),
{
    match state {
        Some(state) => Some(state),
        None => Some(ScaleEasingState::default()),
    }
}

impl EasedEntity {
    /// Everything that a marker of the entity requires is there: the markers
    /// that it stands for, and the easing state of each channel whose easing
    /// it switches on.
    pub open spec fn requirements_met(self, required: RequiredComponents) -> bool {
        let m = self.markers;
        &&& m.no_transform_easing ==> m.no_translation_easing && m.no_rotation_easing
            && m.no_scale_easing
        &&& m.transform_interpolation ==> m.translation_interpolation && m.rotation_interpolation
            && m.scale_interpolation
        &&& m.transform_extrapolation ==> m.translation_extrapolation && m.rotation_extrapolation
        &&& m.transform_hermite_easing ==> m.translation_hermite_easing
            && m.rotation_hermite_easing
        &&& m.translation_interpolation || m.translation_extrapolation
            ==> self.translation_easing is Some
        &&& m.rotation_interpolation || m.rotation_extrapolation ==> self.rotation_easing is Some
        &&& m.scale_interpolation ==> self.scale_easing is Some
        &&& m.translation_hermite_easing && required.translation_hermite_is_nonlinear
            ==> m.nonlinear_translation_easing
        &&& m.rotation_hermite_easing && required.rotation_hermite_is_nonlinear
            ==> m.nonlinear_rotation_easing
        &&& required.translation_interpolation_for_all ==> m.translation_interpolation
        &&& required.rotation_interpolation_for_all ==> m.rotation_interpolation
        &&& required.scale_interpolation_for_all ==> m.scale_interpolation
        &&& required.translation_extrapolation_for_all ==> m.translation_extrapolation
        &&& required.rotation_extrapolation_for_all ==> m.rotation_extrapolation
    }

    /// The entity is `before` with markers and easing states added: the
    /// transform and its date are those of `before`, each easing state that
    /// `before` had is unchanged, and each that it had not is absent or
    /// empty.
    pub open spec fn is_grown_from(self, before: EasedEntity) -> bool {
        &&& self.transform == before.transform
        &&& self.transform_changed == before.transform_changed
        &&& self.translation_easing == before.translation_easing || (before.translation_easing
            is None && self.translation_easing == Some(TranslationEasingState::empty()))
        &&& self.rotation_easing == before.rotation_easing || (before.rotation_easing is None
            && self.rotation_easing == Some(RotationEasingState::empty()))
        &&& self.scale_easing == before.scale_easing || (before.scale_easing is None
            && self.scale_easing == Some(ScaleEasingState::empty()))
    }

    /// Adds a marker to the entity, with everything that it requires.
    pub fn insert<M: Marker>(&mut self, marker: M, required: &RequiredComponents)
        ensures
            *final(self) == M::inserted(*old(self), *required),
            old(self).requirements_met(*required) ==> final(self).requirements_met(*required),
            final(self).is_grown_from(*old(self)),
    {
        proof {
            M::inserted_keeps_requirements(*self, *required);
        }
        marker.insert(self, required);
    }
}

/// Switches every easing of the entity off.
#[derive(Clone, Copy, Debug, Default, PartialEq, Eq, Structural)]
pub struct NoTransformEasing;

/// Switches the easing of the translation off.
#[derive(Clone, Copy, Debug, Default, PartialEq, Eq, Structural)]
pub struct NoTranslationEasing;

/// Switches the easing of the rotation off.
#[derive(Clone, Copy, Debug, Default, PartialEq, Eq, Structural)]
pub struct NoRotationEasing;

/// Switches the easing of the scale off.
#[derive(Clone, Copy, Debug, Default, PartialEq, Eq, Structural)]
pub struct NoScaleEasing;

/// Says that the translation is blended otherwise than straight, so that
/// the straight blend is not applied.
#[derive(Clone, Copy, Debug, Default, PartialEq, Eq, Structural)]
pub struct NonlinearTranslationEasing;

/// Says that the rotation is blended otherwise than along the shortest arc,
/// so that this blend is not applied.
#[derive(Clone, Copy, Debug, Default, PartialEq, Eq, Structural)]
pub struct NonlinearRotationEasing;

/// Switches interpolation on for translation, rotation and scale.
#[derive(Clone, Copy, Debug, Default, PartialEq, Eq, Structural)]
pub struct TransformInterpolation;

/// Switches interpolation of the translation on.
#[derive(Clone, Copy, Debug, Default, PartialEq, Eq, Structural)]
pub struct TranslationInterpolation;

/// Switches interpolation of the rotation on.
#[derive(Clone, Copy, Debug, Default, PartialEq, Eq, Structural)]
pub struct RotationInterpolation;

/// Switches interpolation of the scale on.
#[derive(Clone, Copy, Debug, Default, PartialEq, Eq, Structural)]
pub struct ScaleInterpolation;

/// Switches extrapolation on for translation and rotation.
#[derive(Clone, Copy, Debug, Default, PartialEq, Eq, Structural)]
pub struct TransformExtrapolation;

/// Switches extrapolation of the translation on.
#[derive(Clone, Copy, Debug, Default, PartialEq, Eq, Structural)]
pub struct TranslationExtrapolation;

/// Switches extrapolation of the rotation on.
#[derive(Clone, Copy, Debug, Default, PartialEq, Eq, Structural)]
pub struct RotationExtrapolation;

/// Switches the cubic blend on for translation and rotation. It is used
/// beside interpolation or extrapolation, which produce the snapshots.
#[derive(Clone, Copy, Debug, Default, PartialEq, Eq, Structural)]
pub struct TransformHermiteEasing;

/// Switches the cubic blend of the translation on.
#[derive(Clone, Copy, Debug, Default, PartialEq, Eq, Structural)]
pub struct TranslationHermiteEasing;

/// Switches the cubic blend of the rotation on.
#[derive(Clone, Copy, Debug, Default, PartialEq, Eq, Structural)]
pub struct RotationHermiteEasing;

impl Marker for NoTransformEasing {
    open spec fn inserted(entity: EasedEntity, required: RequiredComponents) -> EasedEntity {
        EasedEntity {
            markers: Markers {
                no_transform_easing: true,
                no_translation_easing: true,
                no_rotation_easing: true,
                no_scale_easing: true,
                ..entity.markers
            },
            ..entity
        }
    }

    fn insert(self, entity: &mut EasedEntity, required: &RequiredComponents) {
        let markers = Markers {
            no_transform_easing: true,
            no_translation_easing: true,
            no_rotation_easing: true,
            no_scale_easing: true,
            ..entity.markers
        };
        *entity = EasedEntity {
            markers,
            ..*entity
        };
    }

    proof fn inserted_keeps_requirements(entity: EasedEntity, required: RequiredComponents) {
    }
}

impl Marker for NoTranslationEasing {
    open spec fn inserted(entity: EasedEntity, required: RequiredComponents) -> EasedEntity {
        EasedEntity {
            markers: Markers {
                no_translation_easing: true,
                ..entity.markers
            },
            ..entity
        }
    }

    fn insert(self, entity: &mut EasedEntity, required: &RequiredComponents) {
        let markers = Markers {
            no_translation_easing: true,
            ..entity.markers
        };
        *entity = EasedEntity {
            markers,
            ..*entity
        };
    }

    proof fn inserted_keeps_requirements(entity: EasedEntity, required: RequiredComponents) {
    }
}

impl Marker for NoRotationEasing {
    open spec fn inserted(entity: EasedEntity, required: RequiredComponents) -> EasedEntity {
        EasedEntity {
            markers: Markers {
                no_rotation_easing: true,
                ..entity.markers
            },
            ..entity
        }
    }

    fn insert(self, entity: &mut EasedEntity, required: &RequiredComponents) {
        let markers = Markers {
            no_rotation_easing: true,
            ..entity.markers
        };
        *entity = EasedEntity {
            markers,
            ..*entity
        };
    }

    proof fn inserted_keeps_requirements(entity: EasedEntity, required: RequiredComponents) {
    }
}

impl Marker for NoScaleEasing {
    open spec fn inserted(entity: EasedEntity, required: RequiredComponents) -> EasedEntity {
        EasedEntity {
            markers: Markers {
                no_scale_easing: true,
                ..entity.markers
            },
            ..entity
        }
    }

    fn insert(self, entity: &mut EasedEntity, required: &RequiredComponents) {
        let markers = Markers {
            no_scale_easing: true,
            ..entity.markers
        };
        *entity = EasedEntity {
            markers,
            ..*entity
        };
    }

    proof fn inserted_keeps_requirements(entity: EasedEntity, required: RequiredComponents) {
    }
}

impl Marker for NonlinearTranslationEasing {
    open spec fn inserted(entity: EasedEntity, required: RequiredComponents) -> EasedEntity {
        EasedEntity {
            markers: Markers {
                nonlinear_translation_easing: true,
                ..entity.markers
            },
            ..entity
        }
    }

    fn insert(self, entity: &mut EasedEntity, required: &RequiredComponents) {
        let markers = Markers {
            nonlinear_translation_easing: true,
            ..entity.markers
        };
        *entity = EasedEntity {
            markers,
            ..*entity
        };
    }

    proof fn inserted_keeps_requirements(entity: EasedEntity, required: RequiredComponents) {
    }
}

impl Marker for NonlinearRotationEasing {
    open spec fn inserted(entity: EasedEntity, required: RequiredComponents) -> EasedEntity {
        EasedEntity {
            markers: Markers {
                nonlinear_rotation_easing: true,
                ..entity.markers
            },
            ..entity
        }
    }

    fn insert(self, entity: &mut EasedEntity, required: &RequiredComponents) {
        let markers = Markers {
            nonlinear_rotation_easing: true,
            ..entity.markers
        };
        *entity = EasedEntity {
            markers,
            ..*entity
        };
    }

    proof fn inserted_keeps_requirements(entity: EasedEntity, required: RequiredComponents) {
    }
}

impl Marker for TransformInterpolation {
    open spec fn inserted(entity: EasedEntity, required: RequiredComponents) -> EasedEntity {
        EasedEntity {
            markers: Markers {
                transform_interpolation: true,
                translation_interpolation: true,
                rotation_interpolation: true,
                scale_interpolation: true,
                ..entity.markers
            },
            translation_easing: translation_state_or_empty(entity.translation_easing),
            rotation_easing: rotation_state_or_empty(entity.rotation_easing),
            scale_easing: scale_state_or_empty(entity.scale_easing),
            ..entity
        }
    }

    fn insert(self, entity: &mut EasedEntity, required: &RequiredComponents) {
        let markers = Markers {
            transform_interpolation: true,
            translation_interpolation: true,
            rotation_interpolation: true,
            scale_interpolation: true,
            ..entity.markers
        };
        *entity = EasedEntity {
            markers,
            translation_easing: translation_state_or_default(entity.translation_easing),
            rotation_easing: rotation_state_or_default(entity.rotation_easing),
            scale_easing: scale_state_or_default(entity.scale_easing),
            ..*entity
        };
    }

    proof fn inserted_keeps_requirements(entity: EasedEntity, required: RequiredComponents) {
    }
}

impl Marker for TranslationInterpolation {
    open spec fn inserted(entity: EasedEntity, required: RequiredComponents) -> EasedEntity {
        EasedEntity {
            markers: Markers {
                translation_interpolation: true,
                ..entity.markers
            },
            translation_easing: translation_state_or_empty(entity.translation_easing),
            ..entity
        }
    }

    fn insert(self, entity: &mut EasedEntity, required: &RequiredComponents) {
        let markers = Markers {
            translation_interpolation: true,
            ..entity.markers
        };
        *entity = EasedEntity {
            markers,
            translation_easing: translation_state_or_default(entity.translation_easing),
            ..*entity
        };
    }

    proof fn inserted_keeps_requirements(entity: EasedEntity, required: RequiredComponents) {
    }
}

impl Marker for RotationInterpolation {
    open spec fn inserted(entity: EasedEntity, required: RequiredComponents) -> EasedEntity {
        EasedEntity {
            markers: Markers {
                rotation_interpolation: true,
                ..entity.markers
            },
            rotation_easing: rotation_state_or_empty(entity.rotation_easing),
            ..entity
        }
    }

    fn insert(self, entity: &mut EasedEntity, required: &RequiredComponents) {
        let markers = Markers {
            rotation_interpolation: true,
            ..entity.markers
        };
        *entity = EasedEntity {
            markers,
            rotation_easing: rotation_state_or_default(entity.rotation_easing),
            ..*entity
        };
    }

    proof fn inserted_keeps_requirements(entity: EasedEntity, required: RequiredComponents) {
    }
}

impl Marker for ScaleInterpolation {
    open spec fn inserted(entity: EasedEntity, required: RequiredComponents) -> EasedEntity {
        EasedEntity {
            markers: Markers {
                scale_interpolation: true,
                ..entity.markers
            },
            scale_easing: scale_state_or_empty(entity.scale_easing),
            ..entity
        }
    }

    fn insert(self, entity: &mut EasedEntity, required: &RequiredComponents) {
        let markers = Markers {
            scale_interpolation: true,
            ..entity.markers
        };
        *entity = EasedEntity {
            markers,
            scale_easing: scale_state_or_default(entity.scale_easing),
            ..*entity
        };
    }

    proof fn inserted_keeps_requirements(entity: EasedEntity, required: RequiredComponents) {
    }
}

impl Marker for TransformExtrapolation {
    open spec fn inserted(entity: EasedEntity, required: RequiredComponents) -> EasedEntity {
        EasedEntity {
            markers: Markers {
                transform_extrapolation: true,
                translation_extrapolation: true,
                rotation_extrapolation: true,
                ..entity.markers
            },
            translation_easing: translation_state_or_empty(entity.translation_easing),
            rotation_easing: rotation_state_or_empty(entity.rotation_easing),
            ..entity
        }
    }

    fn insert(self, entity: &mut EasedEntity, required: &RequiredComponents) {
        let markers = Markers {
            transform_extrapolation: true,
            translation_extrapolation: true,
            rotation_extrapolation: true,
            ..entity.markers
        };
        *entity = EasedEntity {
            markers,
            translation_easing: translation_state_or_default(entity.translation_easing),
            rotation_easing: rotation_state_or_default(entity.rotation_easing),
            ..*entity
        };
    }

    proof fn inserted_keeps_requirements(entity: EasedEntity, required: RequiredComponents) {
    }
}

impl Marker for TranslationExtrapolation {
    open spec fn inserted(entity: EasedEntity, required: RequiredComponents) -> EasedEntity {
        EasedEntity {
            markers: Markers {
                translation_extrapolation: true,
                ..entity.markers
            },
            translation_easing: translation_state_or_empty(entity.translation_easing),
            ..entity
        }
    }

    fn insert(self, entity: &mut EasedEntity, required: &RequiredComponents) {
        let markers = Markers {
            translation_extrapolation: true,
            ..entity.markers
        };
        *entity = EasedEntity {
            markers,
            translation_easing: translation_state_or_default(entity.translation_easing),
            ..*entity
        };
    }

    proof fn inserted_keeps_requirements(entity: EasedEntity, required: RequiredComponents) {
    }
}

impl Marker for RotationExtrapolation {
    open spec fn inserted(entity: EasedEntity, required: RequiredComponents) -> EasedEntity {
        EasedEntity {
            markers: Markers {
                rotation_extrapolation: true,
                ..entity.markers
            },
            rotation_easing: rotation_state_or_empty(entity.rotation_easing),
            ..entity
        }
    }

    fn insert(self, entity: &mut EasedEntity, required: &RequiredComponents) {
        let markers = Markers {
            rotation_extrapolation: true,
            ..entity.markers
        };
        *entity = EasedEntity {
            markers,
            rotation_easing: rotation_state_or_default(entity.rotation_easing),
            ..*entity
        };
    }

    proof fn inserted_keeps_requirements(entity: EasedEntity, required: RequiredComponents) {
    }
}

impl Marker for TransformHermiteEasing {
    open spec fn inserted(entity: EasedEntity, required: RequiredComponents) -> EasedEntity {
        EasedEntity {
            markers: Markers {
                transform_hermite_easing: true,
                translation_hermite_easing: true,
                rotation_hermite_easing: true,
                nonlinear_translation_easing: entity.markers.nonlinear_translation_easing
                    || required.translation_hermite_is_nonlinear,
                nonlinear_rotation_easing: entity.markers.nonlinear_rotation_easing
                    || required.rotation_hermite_is_nonlinear,
                ..entity.markers
            },
            ..entity
        }
    }

    fn insert(self, entity: &mut EasedEntity, required: &RequiredComponents) {
        let markers = Markers {
            transform_hermite_easing: true,
            translation_hermite_easing: true,
            rotation_hermite_easing: true,
            nonlinear_translation_easing: entity.markers.nonlinear_translation_easing
                || required.translation_hermite_is_nonlinear,
            nonlinear_rotation_easing: entity.markers.nonlinear_rotation_easing
                || required.rotation_hermite_is_nonlinear,
            ..entity.markers
        };
        *entity = EasedEntity {
            markers,
            ..*entity
        };
    }

    proof fn inserted_keeps_requirements(entity: EasedEntity, required: RequiredComponents) {
    }
}

impl Marker for TranslationHermiteEasing {
    open spec fn inserted(entity: EasedEntity, required: RequiredComponents) -> EasedEntity {
        EasedEntity {
            markers: Markers {
                translation_hermite_easing: true,
                nonlinear_translation_easing: entity.markers.nonlinear_translation_easing
                    || required.translation_hermite_is_nonlinear,
                ..entity.markers
            },
            ..entity
        }
    }

    fn insert(self, entity: &mut EasedEntity, required: &RequiredComponents) {
        let markers = Markers {
            translation_hermite_easing: true,
            nonlinear_translation_easing: entity.markers.nonlinear_translation_easing
                || required.translation_hermite_is_nonlinear,
            ..entity.markers
        };
        *entity = EasedEntity {
            markers,
            ..*entity
        };
    }

    proof fn inserted_keeps_requirements(entity: EasedEntity, required: RequiredComponents) {
    }
}

impl Marker for RotationHermiteEasing {
    open spec fn inserted(entity: EasedEntity, required: RequiredComponents) -> EasedEntity {
        EasedEntity {
            markers: Markers {
                rotation_hermite_easing: true,
                nonlinear_rotation_easing: entity.markers.nonlinear_rotation_easing
                    || required.rotation_hermite_is_nonlinear,
                ..entity.markers
            },
            ..entity
        }
    }

    fn insert(self, entity: &mut EasedEntity, required: &RequiredComponents) {
        let markers = Markers {
            rotation_hermite_easing: true,
            nonlinear_rotation_easing: entity.markers.nonlinear_rotation_easing
                || required.rotation_hermite_is_nonlinear,
            ..entity.markers
        };
        *entity = EasedEntity {
            markers,
            ..*entity
        };
    }

    proof fn inserted_keeps_requirements(entity: EasedEntity, required: RequiredComponents) {
    }
}

impl EasedEntity {
    /// The entity that carries `transform`, written at `tick`, and the
    /// easing that is required of every entity with a transform.
    pub open spec fn spawned(
        transform: Transform,
        tick: u32,
        required: RequiredComponents,
    ) -> EasedEntity {
        EasedEntity {
            transform,
            transform_changed: tick,
            translation_easing: if required.translation_interpolation_for_all
                || required.translation_extrapolation_for_all {
                Some(TranslationEasingState::empty())
            } else {
                None
            },
            rotation_easing: if required.rotation_interpolation_for_all
                || required.rotation_extrapolation_for_all {
                Some(RotationEasingState::empty())
            } else {
                None
            },
            scale_easing: if required.scale_interpolation_for_all {
                Some(ScaleEasingState::empty())
            } else {
                None
            },
            markers: Markers {
                translation_interpolation: required.translation_interpolation_for_all,
                rotation_interpolation: required.rotation_interpolation_for_all,
                scale_interpolation: required.scale_interpolation_for_all,
                translation_extrapolation: required.translation_extrapolation_for_all,
                rotation_extrapolation: required.rotation_extrapolation_for_all,
                ..Markers::none()
            },
        }
    }

    /// Creates an entity with a transform, written at `tick`, and adds the
    /// markers that are required of every entity with a transform.
    pub fn spawn(transform: Transform, tick: u32, required: &RequiredComponents) -> (entity:
        EasedEntity)
        ensures
            entity == EasedEntity::spawned(transform, tick, *required),
            entity.requirements_met(*required),
    {
        let translation_easing = if required.translation_interpolation_for_all
            || required.translation_extrapolation_for_all {
            Some(TranslationEasingState::default())
        } else {
            None
        };
        let rotation_easing = if required.rotation_interpolation_for_all
            || required.rotation_extrapolation_for_all {
            Some(RotationEasingState::default())
        } else {
            None
        };
        let scale_easing = if required.scale_interpolation_for_all {
            Some(ScaleEasingState::default())
        } else {
            None
        };
        let mut markers = Markers::default();
        markers.translation_interpolation = required.translation_interpolation_for_all;
        markers.rotation_interpolation = required.rotation_interpolation_for_all;
        markers.scale_interpolation = required.scale_interpolation_for_all;
        markers.translation_extrapolation = required.translation_extrapolation_for_all;
        markers.rotation_extrapolation = required.rotation_extrapolation_for_all;
        EasedEntity {
            transform,
            transform_changed: tick,
            translation_easing,
            rotation_easing,
            scale_easing,
            markers,
        }
    }
}

} // verus!
