//! Extrapolation: easing from the transform after a fixed step to the
//! transform that the velocity predicts for one step later.
//!
//! The displayed motion does not lag, but jumps back when a prediction was
//! wrong: at the start of the next step the transform is put back to the
//! start of the easing, which is the last value that the simulation itself
//! produced. Only translation and rotation are extrapolated.
//!
//! Advancing a value by a velocity is arithmetic on real numbers and is done
//! by the caller, between reading what to advance and storing the result.

use crate::entity::EasedEntity;
use crate::math::{Quat, Vec3};
use crate::plugin::TransformEasingPlugin;
use crate::schedule::{
    is_regular, App, Placement, Plugins, Position, RequiredComponents, ScheduleLabel, System,
    TransformEasingSet,
};
use crate::state::{RotationEasingState, TranslationEasingState};
use crate::velocity::VelocitySource;
use core::marker::PhantomData;
use vstd::prelude::*;

pub use crate::markers::{RotationExtrapolation, TransformExtrapolation, TranslationExtrapolation};

verus! {

/// The translation of the entity is extrapolated.
pub open spec fn extrapolates_translation(entity: EasedEntity) -> bool {
    &&& entity.translation_easing is Some
    &&& entity.markers.translation_extrapolation
    &&& !entity.markers.no_translation_easing
}

/// The rotation of the entity is extrapolated.
pub open spec fn extrapolates_rotation(entity: EasedEntity) -> bool {
    &&& entity.rotation_easing is Some
    &&& entity.markers.rotation_extrapolation
    &&& !entity.markers.no_rotation_easing
}

/// The entity after its translation was put back to the start of the
/// extrapolation, if there is one.
pub open spec fn translation_extrapolation_undone(entity: EasedEntity, this_run: u32) -> EasedEntity {
    if extrapolates_translation(entity) && entity.translation_easing->Some_0.start is Some {
        entity.with_translation(entity.translation_easing->Some_0.start->Some_0, this_run)
    } else {
        entity
    }
}

/// The entity after its rotation was put back to the start of the
/// extrapolation, if there is one.
pub open spec fn rotation_extrapolation_undone(entity: EasedEntity, this_run: u32) -> EasedEntity {
    if extrapolates_rotation(entity) && entity.rotation_easing->Some_0.start is Some {
        entity.with_rotation(entity.rotation_easing->Some_0.start->Some_0, this_run)
    } else {
        entity
    }
}

/// Resets the translation to the start of the extrapolation at the beginning
/// of the fixed step, to match the true position from the end of the previous
/// step.
pub fn reset_translation_extrapolation(entity: &mut EasedEntity, this_run: u32)
    ensures
        *final(entity) == translation_extrapolation_undone(*old(entity), this_run),
{
    if !entity.markers.translation_extrapolation || entity.markers.no_translation_easing {
        return ;
    }
    if let Some(translation_easing) = entity.translation_easing {
        if let Some(start) = translation_easing.start {
            entity.set_translation(start, this_run);
        }
    }
}

/// Resets the rotation to the start of the extrapolation at the beginning of
/// the fixed step, to match the true rotation from the end of the previous
/// step.
pub fn reset_rotation_extrapolation(entity: &mut EasedEntity, this_run: u32)
    ensures
        *final(entity) == rotation_extrapolation_undone(*old(entity), this_run),
{
    if !entity.markers.rotation_extrapolation || entity.markers.no_rotation_easing {
        return ;
    }
    if let Some(rotation_easing) = entity.rotation_easing {
        if let Some(start) = rotation_easing.start {
            entity.set_rotation(start, this_run);
        }
    }
}

/// The displayed translation, with the velocity by which to advance it:
/// present when the translation is extrapolated and the entity has a
/// velocity.
pub open spec fn translation_prediction_basis(entity: EasedEntity, velocity: Option<Vec3>) -> Option<
    (Vec3, Vec3),
> {
    if extrapolates_translation(entity) && velocity is Some {
        Some((entity.transform.translation, velocity->Some_0))
    } else {
        None
    }
}

/// The displayed rotation, with the angular velocity by which to advance it:
/// present when the rotation is extrapolated and the entity has an angular
/// velocity.
pub open spec fn rotation_prediction_basis(entity: EasedEntity, velocity: Option<Vec3>) -> Option<
    (Quat, Vec3),
> {
    if extrapolates_rotation(entity) && velocity is Some {
        Some((entity.transform.rotation, velocity->Some_0))
    } else {
        None
    }
}

/// Decides whether the translation is predicted at the end of this step, and
/// returns the displayed translation with the velocity that advances it.
pub fn translation_to_extrapolate(entity: &EasedEntity, velocity: Option<Vec3>) -> (basis: Option<
    (Vec3, Vec3),
>)
    ensures
        basis == translation_prediction_basis(*entity, velocity),
{
    if entity.translation_easing.is_none() || !entity.markers.translation_extrapolation
        || entity.markers.no_translation_easing {
        return None;
    }
    match velocity {
        Some(lin_vel) => Some((entity.transform.translation, lin_vel)),
        None => None,
    }
}

/// Decides whether the rotation is predicted at the end of this step, and
/// returns the displayed rotation with the angular velocity that advances it.
pub fn rotation_to_extrapolate(entity: &EasedEntity, velocity: Option<Vec3>) -> (basis: Option<
    (Quat, Vec3),
>)
    ensures
        basis == rotation_prediction_basis(*entity, velocity),
{
    if entity.rotation_easing.is_none() || !entity.markers.rotation_extrapolation
        || entity.markers.no_rotation_easing {
        return None;
    }
    match velocity {
        Some(ang_vel) => Some((entity.transform.rotation, ang_vel)),
        None => None,
    }
}

/// Reads the velocity after the step through the velocity source and decides
/// as `translation_to_extrapolate` does, on the reading of the source. An
/// entity without the velocity attribute is not extrapolated.
pub fn read_translation_to_extrapolate<V: VelocitySource>(
    entity: &EasedEntity,
    end_vel: Option<&V::Current>,
) -> (basis: Option<(Vec3, Vec3)>)
    ensures
        basis == if end_vel is Some {
            translation_prediction_basis(*entity, Some(V::current_reading(end_vel->Some_0)))
        } else {
            None
        },
{
    match end_vel {
        Some(end_vel) => translation_to_extrapolate(entity, Some(V::current(end_vel))),
        None => None,
    }
}

/// Reads the angular velocity after the step through the velocity source and
/// decides as `rotation_to_extrapolate` does, on the reading of the source.
/// An entity without the velocity attribute is not extrapolated.
pub fn read_rotation_to_extrapolate<V: VelocitySource>(
    entity: &EasedEntity,
    end_vel: Option<&V::Current>,
) -> (basis: Option<(Quat, Vec3)>)
    ensures
        basis == if end_vel is Some {
            rotation_prediction_basis(*entity, Some(V::current_reading(end_vel->Some_0)))
        } else {
            None
        },
{
    match end_vel {
        Some(end_vel) => rotation_to_extrapolate(entity, Some(V::current(end_vel))),
        None => None,
    }
}

/// The entity after the states of its translation extrapolation were updated:
/// the easing starts at the displayed translation and ends at the predicted
/// one.
pub open spec fn translation_extrapolation_updated(entity: EasedEntity, predicted: Vec3) -> EasedEntity {
    if extrapolates_translation(entity) {
        EasedEntity {
            translation_easing: Some(
                TranslationEasingState {
                    start: Some(entity.transform.translation),
                    end: Some(predicted),
                },
            ),
            ..entity
        }
    } else {
        entity
    }
}

/// The entity after the states of its rotation extrapolation were updated:
/// the easing starts at the displayed rotation and ends at the predicted one.
pub open spec fn rotation_extrapolation_updated(entity: EasedEntity, predicted: Quat) -> EasedEntity {
    if extrapolates_rotation(entity) {
        EasedEntity {
            rotation_easing: Some(
                RotationEasingState { start: Some(entity.transform.rotation), end: Some(predicted) },
            ),
            ..entity
        }
    } else {
        entity
    }
}

/// Updates the start and end states of the translation extrapolation for the
/// next fixed step. `predicted` is the displayed translation advanced by the
/// velocity over one step.
pub fn update_translation_extrapolation_states(entity: &mut EasedEntity, predicted: Vec3)
    ensures
        *final(entity) == translation_extrapolation_updated(*old(entity), predicted),
{
    if entity.translation_easing.is_none() || !entity.markers.translation_extrapolation
        || entity.markers.no_translation_easing {
        return ;
    }
    entity.translation_easing = Some(
        TranslationEasingState { start: Some(entity.transform.translation), end: Some(predicted) },
    );
}

/// Updates the start and end states of the rotation extrapolation for the
/// next fixed step. `predicted` is the displayed rotation advanced by the
/// angular velocity over one step.
pub fn update_rotation_extrapolation_states(entity: &mut EasedEntity, predicted: Quat)
    ensures
        *final(entity) == rotation_extrapolation_updated(*old(entity), predicted),
{
    if entity.rotation_easing.is_none() || !entity.markers.rotation_extrapolation
        || entity.markers.no_rotation_easing {
        return ;
    }
    entity.rotation_easing = Some(
        RotationEasingState { start: Some(entity.transform.rotation), end: Some(predicted) },
    );
}

/// Adds the passes of extrapolation to a plan.
///
/// `LinVel` and `AngVel` name the sources of the linear and of the angular
/// velocity. The easing itself is done by the passes of the easing
/// controller, which `finish` adds if they are missing. Scale is not
/// extrapolated.
#[derive(Debug)]
pub struct TransformExtrapolationPlugin<LinVel: VelocitySource, AngVel: VelocitySource> {
    /// If `true`, translation is extrapolated for every entity with a
    /// transform, unless the entity opts out.
    pub extrapolate_translation_all: bool,
    /// If `true`, rotation is extrapolated for every entity with a transform,
    /// unless the entity opts out.
    pub extrapolate_rotation_all: bool,
    /// Uses the type parameters.
    pub _phantom: PhantomData<(LinVel, AngVel)>,
}

impl<LinVel: VelocitySource, AngVel: VelocitySource> Default for TransformExtrapolationPlugin<
    LinVel,
    AngVel,
> {
    fn default() -> (plugin: Self)
        ensures
            !plugin.extrapolate_translation_all,
            !plugin.extrapolate_rotation_all,
    {
        TransformExtrapolationPlugin {
            extrapolate_translation_all: false,
            extrapolate_rotation_all: false,
            _phantom: PhantomData,
        }
    }
}

impl<LinVel: VelocitySource, AngVel: VelocitySource> TransformExtrapolationPlugin<LinVel, AngVel> {
    /// Enables extrapolation of translation and rotation for every entity
    /// with a transform.
    pub fn extrapolate_all() -> (plugin: Self)
        ensures
            plugin.extrapolate_translation_all,
            plugin.extrapolate_rotation_all,
    {
        TransformExtrapolationPlugin {
            extrapolate_translation_all: true,
            extrapolate_rotation_all: true,
            _phantom: PhantomData,
        }
    }

    /// The passes that the plugin adds, in order: the two that put the
    /// transform back before the easing states are reset, and the two that
    /// update the states at the end of the step.
    pub open spec fn systems() -> Seq<Placement> {
        seq![
            Placement {
                schedule: ScheduleLabel::FixedFirst,
                position: Position::Before(TransformEasingSet::Reset),
                system: System::ResetTranslationExtrapolation,
            },
            Placement {
                schedule: ScheduleLabel::FixedFirst,
                position: Position::Before(TransformEasingSet::Reset),
                system: System::ResetRotationExtrapolation,
            },
            Placement {
                schedule: ScheduleLabel::FixedLast,
                position: Position::In(TransformEasingSet::UpdateEnd),
                system: System::UpdateTranslationExtrapolationStates,
            },
            Placement {
                schedule: ScheduleLabel::FixedLast,
                position: Position::In(TransformEasingSet::UpdateEnd),
                system: System::UpdateRotationExtrapolationStates,
            },
        ]
    }

    /// The required markers after the plugin was built: each channel that the
    /// plugin extrapolates for all entities is added to those that already
    /// were.
    pub open spec fn required(&self, before: RequiredComponents) -> RequiredComponents {
        RequiredComponents {
            translation_extrapolation_for_all: before.translation_extrapolation_for_all
                || self.extrapolate_translation_all,
            rotation_extrapolation_for_all: before.rotation_extrapolation_for_all
                || self.extrapolate_rotation_all,
            ..before
        }
    }

    /// Adds the passes of extrapolation to the plan, makes the markers of the
    /// channels that are extrapolated for all entities required, and notes
    /// that the plugin was added.
    pub fn build(&self, app: &mut App)
        ensures
            final(app).systems@ == old(app).systems@ + Self::systems(),
            is_regular(old(app).systems@) ==> is_regular(final(app).systems@),
            final(app).required == self.required(old(app).required),
            final(app).plugins == (Plugins { transform_extrapolation: true, ..old(app).plugins }),
            final(app).sets == old(app).sets,
            final(app).last_easing_tick == old(app).last_easing_tick,
    {
        // Put the transform back to the start of the extrapolation at the
        // beginning of the fixed step.
        app.add_pass(ScheduleLabel::FixedFirst, System::ResetTranslationExtrapolation);
        app.add_pass(ScheduleLabel::FixedFirst, System::ResetRotationExtrapolation);

        // Update the start and end state of the extrapolation at the end of
        // the fixed step.
        app.add_pass(ScheduleLabel::FixedLast, System::UpdateTranslationExtrapolationStates);
        app.add_pass(ScheduleLabel::FixedLast, System::UpdateRotationExtrapolationStates);
        assert(app.systems@ =~= old(app).systems@ + Self::systems());

        if self.extrapolate_translation_all {
            app.required.translation_extrapolation_for_all = true;
        }
        if self.extrapolate_rotation_all {
            app.required.rotation_extrapolation_for_all = true;
        }
        app.plugins.transform_extrapolation = true;
    }

    /// Adds the plugin of the easing controller, with its default settings,
    /// if it has not been added yet.
    pub fn finish(&self, app: &mut App)
        ensures
            if old(app).plugins.transform_easing {
                *final(app) == *old(app)
            } else {
                TransformEasingPlugin::default_spec().is_built(*old(app), *final(app))
            },
            is_regular(old(app).systems@) ==> is_regular(final(app).systems@),
    {
        if !app.plugins.transform_easing {
            TransformEasingPlugin::default().build(app);
        }
    }
}

} // verus!
