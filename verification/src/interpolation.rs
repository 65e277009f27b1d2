//! Interpolation: easing from the transform before a fixed step to the
//! transform after it.
//!
//! The displayed motion lags the simulation by up to one step and never
//! mispredicts. At the start of a step the previous easing is completed and
//! the transform is recorded as the new start; at the end of the step the
//! transform that the simulation left behind is recorded as the end.

use crate::entity::EasedEntity;
use crate::plugin::TransformEasingPlugin;
use crate::schedule::{
    is_regular, App, Placement, Plugins, Position, RequiredComponents, ScheduleLabel, System,
    TransformEasingSet,
};
use crate::state::{RotationEasingState, ScaleEasingState, TranslationEasingState};
use vstd::prelude::*;

pub use crate::markers::{
    RotationInterpolation, ScaleInterpolation, TransformInterpolation, TranslationInterpolation,
};

verus! {

/// The translation of the entity is interpolated.
pub open spec fn interpolates_translation(entity: EasedEntity) -> bool {
    &&& entity.translation_easing is Some
    &&& entity.markers.translation_interpolation
    &&& !entity.markers.no_translation_easing
}

/// The rotation of the entity is interpolated.
pub open spec fn interpolates_rotation(entity: EasedEntity) -> bool {
    &&& entity.rotation_easing is Some
    &&& entity.markers.rotation_interpolation
    &&& !entity.markers.no_rotation_easing
}

/// The scale of the entity is interpolated.
pub open spec fn interpolates_scale(entity: EasedEntity) -> bool {
    &&& entity.scale_easing is Some
    &&& entity.markers.scale_interpolation
    &&& !entity.markers.no_scale_easing
}

/// The entity after the easing of its translation was completed: an
/// interpolated translation that has an end is displayed at that end.
pub open spec fn translation_easing_completed(entity: EasedEntity, this_run: u32) -> EasedEntity {
    if interpolates_translation(entity) && entity.translation_easing->Some_0.end is Some {
        entity.with_translation(entity.translation_easing->Some_0.end->Some_0, this_run)
    } else {
        entity
    }
}

/// The entity after the easing of its rotation was completed.
pub open spec fn rotation_easing_completed(entity: EasedEntity, this_run: u32) -> EasedEntity {
    if interpolates_rotation(entity) && entity.rotation_easing->Some_0.end is Some {
        entity.with_rotation(entity.rotation_easing->Some_0.end->Some_0, this_run)
    } else {
        entity
    }
}

/// The entity after the easing of its scale was completed.
pub open spec fn scale_easing_completed(entity: EasedEntity, this_run: u32) -> EasedEntity {
    if interpolates_scale(entity) && entity.scale_easing->Some_0.end is Some {
        entity.with_scale(entity.scale_easing->Some_0.end->Some_0, this_run)
    } else {
        entity
    }
}

/// Makes sure the previous translation easing is fully applied before the
/// next easing starts.
pub fn complete_translation_easing(entity: &mut EasedEntity, this_run: u32)
    ensures
        *final(entity) == translation_easing_completed(*old(entity), this_run),
{
    if !entity.markers.translation_interpolation || entity.markers.no_translation_easing {
        return ;
    }
    if let Some(easing) = entity.translation_easing {
        if let Some(end) = easing.end {
            entity.set_translation(end, this_run);
        }
    }
}

/// Makes sure the previous rotation easing is fully applied before the next
/// easing starts.
pub fn complete_rotation_easing(entity: &mut EasedEntity, this_run: u32)
    ensures
        *final(entity) == rotation_easing_completed(*old(entity), this_run),
{
    if !entity.markers.rotation_interpolation || entity.markers.no_rotation_easing {
        return ;
    }
    if let Some(easing) = entity.rotation_easing {
        if let Some(end) = easing.end {
            entity.set_rotation(end, this_run);
        }
    }
}

/// Makes sure the previous scale easing is fully applied before the next
/// easing starts.
pub fn complete_scale_easing(entity: &mut EasedEntity, this_run: u32)
    ensures
        *final(entity) == scale_easing_completed(*old(entity), this_run),
{
    if !entity.markers.scale_interpolation || entity.markers.no_scale_easing {
        return ;
    }
    if let Some(easing) = entity.scale_easing {
        if let Some(end) = easing.end {
            entity.set_scale(end, this_run);
        }
    }
}

/// The entity after the start of its translation easing was recorded.
pub open spec fn translation_start_recorded(entity: EasedEntity) -> EasedEntity {
    if interpolates_translation(entity) {
        EasedEntity {
            translation_easing: Some(
                TranslationEasingState {
                    start: Some(entity.transform.translation),
                    ..entity.translation_easing->Some_0
                },
            ),
            ..entity
        }
    } else {
        entity
    }
}

/// The entity after the end of its translation easing was recorded.
pub open spec fn translation_end_recorded(entity: EasedEntity) -> EasedEntity {
    if interpolates_translation(entity) {
        EasedEntity {
            translation_easing: Some(
                TranslationEasingState {
                    end: Some(entity.transform.translation),
                    ..entity.translation_easing->Some_0
                },
            ),
            ..entity
        }
    } else {
        entity
    }
}

/// The entity after the start of its rotation easing was recorded.
pub open spec fn rotation_start_recorded(entity: EasedEntity) -> EasedEntity {
    if interpolates_rotation(entity) {
        EasedEntity {
            rotation_easing: Some(
                RotationEasingState {
                    start: Some(entity.transform.rotation),
                    ..entity.rotation_easing->Some_0
                },
            ),
            ..entity
        }
    } else {
        entity
    }
}

/// The entity after the end of its rotation easing was recorded.
pub open spec fn rotation_end_recorded(entity: EasedEntity) -> EasedEntity {
    if interpolates_rotation(entity) {
        EasedEntity {
            rotation_easing: Some(
                RotationEasingState {
                    end: Some(entity.transform.rotation),
                    ..entity.rotation_easing->Some_0
                },
            ),
            ..entity
        }
    } else {
        entity
    }
}

/// The entity after the start of its scale easing was recorded.
pub open spec fn scale_start_recorded(entity: EasedEntity) -> EasedEntity {
    if interpolates_scale(entity) {
        EasedEntity {
            scale_easing: Some(
                ScaleEasingState {
                    start: Some(entity.transform.scale),
                    ..entity.scale_easing->Some_0
                },
            ),
            ..entity
        }
    } else {
        entity
    }
}

/// The entity after the end of its scale easing was recorded.
pub open spec fn scale_end_recorded(entity: EasedEntity) -> EasedEntity {
    if interpolates_scale(entity) {
        EasedEntity {
            scale_easing: Some(
                ScaleEasingState { end: Some(entity.transform.scale), ..entity.scale_easing->Some_0 },
            ),
            ..entity
        }
    } else {
        entity
    }
}

/// Records the displayed translation as the start of the easing.
pub fn update_translation_interpolation_start(entity: &mut EasedEntity)
    ensures
        *final(entity) == translation_start_recorded(*old(entity)),
{
    if !entity.markers.translation_interpolation || entity.markers.no_translation_easing {
        return ;
    }
    if let Some(easing) = entity.translation_easing {
        entity.translation_easing = Some(
            TranslationEasingState { start: Some(entity.transform.translation), end: easing.end },
        );
    }
}

/// Records the displayed translation as the end of the easing.
pub fn update_translation_interpolation_end(entity: &mut EasedEntity)
    ensures
        *final(entity) == translation_end_recorded(*old(entity)),
{
    if !entity.markers.translation_interpolation || entity.markers.no_translation_easing {
        return ;
    }
    if let Some(easing) = entity.translation_easing {
        entity.translation_easing = Some(
            TranslationEasingState { start: easing.start, end: Some(entity.transform.translation) },
        );
    }
}

/// Records the displayed rotation as the start of the easing.
pub fn update_rotation_interpolation_start(entity: &mut EasedEntity)
    ensures
        *final(entity) == rotation_start_recorded(*old(entity)),
{
    if !entity.markers.rotation_interpolation || entity.markers.no_rotation_easing {
        return ;
    }
    if let Some(easing) = entity.rotation_easing {
        entity.rotation_easing = Some(
            RotationEasingState { start: Some(entity.transform.rotation), end: easing.end },
        );
    }
}

/// Records the displayed rotation as the end of the easing.
pub fn update_rotation_interpolation_end(entity: &mut EasedEntity)
    ensures
        *final(entity) == rotation_end_recorded(*old(entity)),
{
    if !entity.markers.rotation_interpolation || entity.markers.no_rotation_easing {
        return ;
    }
    if let Some(easing) = entity.rotation_easing {
        entity.rotation_easing = Some(
            RotationEasingState { start: easing.start, end: Some(entity.transform.rotation) },
        );
    }
}

/// Records the displayed scale as the start of the easing.
pub fn update_scale_interpolation_start(entity: &mut EasedEntity)
    ensures
        *final(entity) == scale_start_recorded(*old(entity)),
{
    if !entity.markers.scale_interpolation || entity.markers.no_scale_easing {
        return ;
    }
    if let Some(easing) = entity.scale_easing {
        entity.scale_easing = Some(
            ScaleEasingState { start: Some(entity.transform.scale), end: easing.end },
        );
    }
}

/// Records the displayed scale as the end of the easing.
pub fn update_scale_interpolation_end(entity: &mut EasedEntity)
    ensures
        *final(entity) == scale_end_recorded(*old(entity)),
{
    if !entity.markers.scale_interpolation || entity.markers.no_scale_easing {
        return ;
    }
    if let Some(easing) = entity.scale_easing {
        entity.scale_easing = Some(
            ScaleEasingState { start: easing.start, end: Some(entity.transform.scale) },
        );
    }
}

/// Adds the passes of interpolation to a plan.
///
/// The easing itself is done by the passes of the easing controller, which
/// `finish` adds if they are missing.
#[derive(Clone, Copy, Debug)]
pub struct TransformInterpolationPlugin {
    /// If `true`, translation is interpolated for every entity with a
    /// transform, unless the entity opts out.
    pub interpolate_translation_all: bool,
    /// If `true`, rotation is interpolated for every entity with a transform,
    /// unless the entity opts out.
    pub interpolate_rotation_all: bool,
    /// If `true`, scale is interpolated for every entity with a transform,
    /// unless the entity opts out.
    pub interpolate_scale_all: bool,
}

impl Default for TransformInterpolationPlugin {
    fn default() -> (plugin: TransformInterpolationPlugin)
        ensures
            plugin == (TransformInterpolationPlugin {
                interpolate_translation_all: false,
                interpolate_rotation_all: false,
                interpolate_scale_all: false,
            }),
    {
        TransformInterpolationPlugin {
            interpolate_translation_all: false,
            interpolate_rotation_all: false,
            interpolate_scale_all: false,
        }
    }
}

impl TransformInterpolationPlugin {
    /// Enables interpolation of translation, rotation and scale for every
    /// entity with a transform.
    pub fn interpolate_all() -> (plugin: TransformInterpolationPlugin)
        ensures
            plugin == (TransformInterpolationPlugin {
                interpolate_translation_all: true,
                interpolate_rotation_all: true,
                interpolate_scale_all: true,
            }),
    {
        TransformInterpolationPlugin {
            interpolate_translation_all: true,
            interpolate_rotation_all: true,
            interpolate_scale_all: true,
        }
    }

    /// The passes that complete the previous easing, before the easing states
    /// are reset.
    pub open spec fn completing_systems() -> Seq<Placement> {
        seq![
            Placement {
                schedule: ScheduleLabel::FixedFirst,
                position: Position::Before(TransformEasingSet::Reset),
                system: System::CompleteTranslationEasing,
            },
            Placement {
                schedule: ScheduleLabel::FixedFirst,
                position: Position::Before(TransformEasingSet::Reset),
                system: System::CompleteRotationEasing,
            },
            Placement {
                schedule: ScheduleLabel::FixedFirst,
                position: Position::Before(TransformEasingSet::Reset),
                system: System::CompleteScaleEasing,
            },
        ]
    }

    /// The passes that record the start of the easing.
    pub open spec fn starting_systems() -> Seq<Placement> {
        seq![
            Placement {
                schedule: ScheduleLabel::FixedFirst,
                position: Position::In(TransformEasingSet::UpdateStart),
                system: System::UpdateTranslationInterpolationStart,
            },
            Placement {
                schedule: ScheduleLabel::FixedFirst,
                position: Position::In(TransformEasingSet::UpdateStart),
                system: System::UpdateRotationInterpolationStart,
            },
            Placement {
                schedule: ScheduleLabel::FixedFirst,
                position: Position::In(TransformEasingSet::UpdateStart),
                system: System::UpdateScaleInterpolationStart,
            },
        ]
    }

    /// The passes that record the end of the easing.
    pub open spec fn ending_systems() -> Seq<Placement> {
        seq![
            Placement {
                schedule: ScheduleLabel::FixedLast,
                position: Position::In(TransformEasingSet::UpdateEnd),
                system: System::UpdateTranslationInterpolationEnd,
            },
            Placement {
                schedule: ScheduleLabel::FixedLast,
                position: Position::In(TransformEasingSet::UpdateEnd),
                system: System::UpdateRotationInterpolationEnd,
            },
            Placement {
                schedule: ScheduleLabel::FixedLast,
                position: Position::In(TransformEasingSet::UpdateEnd),
                system: System::UpdateScaleInterpolationEnd,
            },
        ]
    }

    /// The passes that the plugin adds, in order.
    pub open spec fn systems() -> Seq<Placement> {
        Self::completing_systems() + Self::starting_systems() + Self::ending_systems()
    }

    /// The required markers after the plugin was built: each channel that the
    /// plugin interpolates for all entities is added to those that already
    /// were.
    pub open spec fn required(&self, before: RequiredComponents) -> RequiredComponents {
        RequiredComponents {
            translation_interpolation_for_all: before.translation_interpolation_for_all
                || self.interpolate_translation_all,
            rotation_interpolation_for_all: before.rotation_interpolation_for_all
                || self.interpolate_rotation_all,
            scale_interpolation_for_all: before.scale_interpolation_for_all
                || self.interpolate_scale_all,
            ..before
        }
    }

    /// Adds the passes of interpolation to the plan, makes the markers of the
    /// channels that are interpolated for all entities required, and notes
    /// that the plugin was added.
    pub fn build(&self, app: &mut App)
        ensures
            final(app).systems@ == old(app).systems@ + Self::systems(),
            is_regular(old(app).systems@) ==> is_regular(final(app).systems@),
            final(app).required == self.required(old(app).required),
            final(app).plugins == (Plugins { transform_interpolation: true, ..old(app).plugins }),
            final(app).sets == old(app).sets,
            final(app).last_easing_tick == old(app).last_easing_tick,
    {
        app.add_pass(ScheduleLabel::FixedFirst, System::CompleteTranslationEasing);
        app.add_pass(ScheduleLabel::FixedFirst, System::CompleteRotationEasing);
        app.add_pass(ScheduleLabel::FixedFirst, System::CompleteScaleEasing);
        assert(app.systems@ =~= old(app).systems@ + Self::completing_systems());

        // Update the start state of the interpolation at the start of the fixed step.
        app.add_pass(ScheduleLabel::FixedFirst, System::UpdateTranslationInterpolationStart);
        app.add_pass(ScheduleLabel::FixedFirst, System::UpdateRotationInterpolationStart);
        app.add_pass(ScheduleLabel::FixedFirst, System::UpdateScaleInterpolationStart);
        assert(app.systems@ =~= old(app).systems@ + Self::completing_systems()
            + Self::starting_systems());

        // Update the end state of the interpolation at the end of the fixed step.
        app.add_pass(ScheduleLabel::FixedLast, System::UpdateTranslationInterpolationEnd);
        app.add_pass(ScheduleLabel::FixedLast, System::UpdateRotationInterpolationEnd);
        app.add_pass(ScheduleLabel::FixedLast, System::UpdateScaleInterpolationEnd);
        assert(app.systems@ =~= old(app).systems@ + Self::systems());

        // Make the markers required for every entity with a transform where
        // the corresponding interpolation is enabled for all.
        if self.interpolate_translation_all {
            app.required.translation_interpolation_for_all = true;
        }
        if self.interpolate_rotation_all {
            app.required.rotation_interpolation_for_all = true;
        }
        if self.interpolate_scale_all {
            app.required.scale_interpolation_for_all = true;
        }
        app.plugins.transform_interpolation = true;
    }

    /// Adds the plugin of the easing controller, with its default settings,
    /// if it has not been added yet.
    pub fn finish(&self, app: &mut App)
        ensures
            if old(app).plugins.transform_easing {
                *final(app) == *old(app)
            } else {
                TransformEasingPlugin::default_spec().is_built(*old(app), *final(app))
            },
            is_regular(old(app).systems@) ==> is_regular(final(app).systems@),
    {
        if !app.plugins.transform_easing {
            TransformEasingPlugin::default().build(app);
        }
    }
}

} // verus!
