//! Hermite easing: blending along a cubic curve that takes the velocities at
//! both ends into account, in place of the straight blend.
//!
//! The curve itself is arithmetic on real numbers and is evaluated by the
//! caller. The passes here decide whether a channel is blended this way and
//! hand out the two snapshots and the two velocities.

use crate::entity::EasedEntity;
use crate::math::{Quat, Vec3};
use crate::schedule::{
    is_regular, App, Placement, Plugins, Position, RequiredComponents, ScheduleLabel, System,
    TransformEasingSet,
};
use crate::velocity::VelocitySource;
use core::marker::PhantomData;
use vstd::prelude::*;

pub use crate::markers::{RotationHermiteEasing, TransformHermiteEasing, TranslationHermiteEasing};

verus! {

/// What the cubic blend of a translation is computed from.
#[derive(Clone, Copy, Debug)]
pub struct TranslationHermite {
    /// The translation at which the easing starts.
    pub start: Vec3,
    /// The translation at which the easing ends.
    pub end: Vec3,
    /// The velocity at the start, per second.
    pub start_velocity: Vec3,
    /// The velocity at the end, per second.
    pub end_velocity: Vec3,
}

/// What the cubic blend of a rotation is computed from.
#[derive(Clone, Copy, Debug)]
pub struct RotationHermite {
    /// The rotation at which the easing starts.
    pub start: Quat,
    /// The rotation at which the easing ends.
    pub end: Quat,
    /// The angular velocity at the start, per second.
    pub start_velocity: Vec3,
    /// The angular velocity at the end, per second.
    pub end_velocity: Vec3,
    /// Whether full turns are added so that the curve follows velocities of
    /// more than one revolution per step.
    pub unwrap: bool,
}

/// The translation of the entity is blended along a cubic curve.
pub open spec fn eases_translation_hermite(entity: EasedEntity) -> bool {
    &&& entity.translation_easing is Some
    &&& entity.markers.translation_hermite_easing
    &&& !entity.markers.no_translation_easing
}

/// The rotation of the entity is blended along a cubic curve.
pub open spec fn eases_rotation_hermite(entity: EasedEntity) -> bool {
    &&& entity.rotation_easing is Some
    &&& entity.markers.rotation_hermite_easing
    &&& !entity.markers.no_rotation_easing
}

/// The cubic blend of the translation that is due in this frame: that of a
/// ready channel of an entity that blends its translation this way and has
/// both velocities.
pub open spec fn translation_hermite_due(
    entity: EasedEntity,
    start_velocity: Option<Vec3>,
    end_velocity: Option<Vec3>,
) -> Option<TranslationHermite> {
    if eases_translation_hermite(entity) && start_velocity is Some && end_velocity is Some
        && entity.translation_easing->Some_0.is_ready() {
        Some(
            TranslationHermite {
                start: entity.translation_easing->Some_0.start->Some_0,
                end: entity.translation_easing->Some_0.end->Some_0,
                start_velocity: start_velocity->Some_0,
                end_velocity: end_velocity->Some_0,
            },
        )
    } else {
        None
    }
}

/// The cubic blend of the rotation that is due in this frame: that of a ready
/// channel of an entity that blends its rotation this way and has both
/// angular velocities. Full turns are always unwrapped.
pub open spec fn rotation_hermite_due(
    entity: EasedEntity,
    start_velocity: Option<Vec3>,
    end_velocity: Option<Vec3>,
) -> Option<RotationHermite> {
    if eases_rotation_hermite(entity) && start_velocity is Some && end_velocity is Some
        && entity.rotation_easing->Some_0.is_ready() {
        Some(
            RotationHermite {
                start: entity.rotation_easing->Some_0.start->Some_0,
                end: entity.rotation_easing->Some_0.end->Some_0,
                start_velocity: start_velocity->Some_0,
                end_velocity: end_velocity->Some_0,
                unwrap: true,
            },
        )
    } else {
        None
    }
}

/// Decides whether the translation is eased along a cubic curve in this
/// frame, and from what. The caller scales both velocities by the duration of
/// a step, evaluates the curve and writes the result with `set_translation`.
pub fn translation_hermite(
    entity: &EasedEntity,
    start_velocity: Option<Vec3>,
    end_velocity: Option<Vec3>,
) -> (due: Option<TranslationHermite>)
    ensures
        due == translation_hermite_due(*entity, start_velocity, end_velocity),
{
    if !entity.markers.translation_hermite_easing || entity.markers.no_translation_easing {
        return None;
    }
    match (entity.translation_easing, start_velocity, end_velocity) {
        (Some(interpolation), Some(vel0), Some(vel1)) => {
            match interpolation.ready() {
                Some((start, end)) => Some(
                    TranslationHermite { start, end, start_velocity: vel0, end_velocity: vel1 },
                ),
                None => None,
            }
        },
        _ => None,
    }
}

/// Decides whether the rotation is eased along a cubic curve in this frame,
/// and from what. The caller scales both velocities by the duration of a
/// step, evaluates the curve and writes the result with `set_rotation`.
pub fn rotation_hermite(
    entity: &EasedEntity,
    start_velocity: Option<Vec3>,
    end_velocity: Option<Vec3>,
) -> (due: Option<RotationHermite>)
    ensures
        due == rotation_hermite_due(*entity, start_velocity, end_velocity),
{
    if !entity.markers.rotation_hermite_easing || entity.markers.no_rotation_easing {
        return None;
    }
    match (entity.rotation_easing, start_velocity, end_velocity) {
        (Some(interpolation), Some(vel0), Some(vel1)) => {
            match interpolation.ready() {
                Some((start, end)) => Some(
                    RotationHermite {
                        start,
                        end,
                        start_velocity: vel0,
                        end_velocity: vel1,
                        unwrap: true,
                    },
                ),
                None => None,
            }
        },
        _ => None,
    }
}

/// Reads both velocities through the velocity source and decides as
/// `translation_hermite` does, on the readings of the source. An entity that
/// lacks either velocity attribute is not eased this way.
pub fn ease_translation_hermite<V: VelocitySource>(
    entity: &EasedEntity,
    start_vel: Option<&V::Previous>,
    end_vel: Option<&V::Current>,
) -> (due: Option<TranslationHermite>)
    ensures
        due == if start_vel is Some && end_vel is Some {
            translation_hermite_due(
                *entity,
                Some(V::previous_reading(start_vel->Some_0)),
                Some(V::current_reading(end_vel->Some_0)),
            )
        } else {
            None
        },
{
    match (start_vel, end_vel) {
        (Some(start_vel), Some(end_vel)) => {
            let vel0 = V::previous(start_vel);
            let vel1 = V::current(end_vel);
            translation_hermite(entity, Some(vel0), Some(vel1))
        },
        _ => None,
    }
}

/// Reads both angular velocities through the velocity source and decides as
/// `rotation_hermite` does, on the readings of the source. An entity that
/// lacks either velocity attribute is not eased this way.
pub fn ease_rotation_hermite<V: VelocitySource>(
    entity: &EasedEntity,
    start_vel: Option<&V::Previous>,
    end_vel: Option<&V::Current>,
) -> (due: Option<RotationHermite>)
    ensures
        due == if start_vel is Some && end_vel is Some {
            rotation_hermite_due(
                *entity,
                Some(V::previous_reading(start_vel->Some_0)),
                Some(V::current_reading(end_vel->Some_0)),
            )
        } else {
            None
        },
{
    match (start_vel, end_vel) {
        (Some(start_vel), Some(end_vel)) => {
            let vel0 = V::previous(start_vel);
            let vel1 = V::current(end_vel);
            rotation_hermite(entity, Some(vel0), Some(vel1))
        },
        _ => None,
    }
}

/// Adds the passes of the cubic blend to a plan.
///
/// `LinVel` and `AngVel` name the sources of the linear and of the angular
/// velocity. The plugin is used beside interpolation or extrapolation, which
/// produce the snapshots.
#[derive(Debug)]
pub struct TransformHermiteEasingPlugin<LinVel: VelocitySource, AngVel: VelocitySource>(
    pub PhantomData<LinVel>,
    pub PhantomData<AngVel>,
);

impl<LinVel: VelocitySource, AngVel: VelocitySource> Default for TransformHermiteEasingPlugin<
    LinVel,
    AngVel,
> {
    fn default() -> Self {
        TransformHermiteEasingPlugin(PhantomData, PhantomData)
    }
}

impl<LinVel: VelocitySource, AngVel: VelocitySource> TransformHermiteEasingPlugin<LinVel, AngVel> {
    /// The passes that the plugin adds, in order.
    pub open spec fn systems() -> Seq<Placement> {
        seq![
            Placement {
                schedule: ScheduleLabel::RunFixedMainLoop,
                position: Position::In(TransformEasingSet::Ease),
                system: System::EaseTranslationHermite,
            },
            Placement {
                schedule: ScheduleLabel::RunFixedMainLoop,
                position: Position::In(TransformEasingSet::Ease),
                system: System::EaseRotationHermite,
            },
        ]
    }

    /// Adds the passes of the cubic blend to the plan, makes each marker for a
    /// cubic blend bring the marker that switches the straight blend of its
    /// channel off, and notes that the plugin was added.
    pub fn build(&self, app: &mut App)
        ensures
            final(app).systems@ == old(app).systems@ + Self::systems(),
            is_regular(old(app).systems@) ==> is_regular(final(app).systems@),
            final(app).required == (RequiredComponents {
                translation_hermite_is_nonlinear: true,
                rotation_hermite_is_nonlinear: true,
                ..old(app).required
            }),
            final(app).plugins == (Plugins { transform_hermite_easing: true, ..old(app).plugins }),
            final(app).sets == old(app).sets,
            final(app).last_easing_tick == old(app).last_easing_tick,
    {
        // Mark entities with a cubic blend as eased otherwise than straight.
        app.required.translation_hermite_is_nonlinear = true;
        app.required.rotation_hermite_is_nonlinear = true;

        // Perform easing.
        app.add_pass(ScheduleLabel::RunFixedMainLoop, System::EaseTranslationHermite);
        app.add_pass(ScheduleLabel::RunFixedMainLoop, System::EaseRotationHermite);
        assert(app.systems@ =~= old(app).systems@ + Self::systems());
        app.plugins.transform_hermite_easing = true;
    }
}

} // verus!
