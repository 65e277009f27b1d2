//! The easing controller: what happens to one entity in each of the passes
//! that do not depend on how the snapshots were produced.
//!
//! At the start of a fixed step every easing state is reset: a channel
//! whose easing has an end is put to that end, so that nothing that was
//! blended only in part is handed to the simulation, and both snapshots are
//! cleared. Once per frame, before anything is blended, a transform that was
//! written from outside since the last easing, to a value that is neither
//! snapshot, clears the state of that channel, so that the write stays on
//! display. Then each
//! ready channel is blended between its snapshots. The blend itself is
//! arithmetic on real numbers and is done by the caller: the passes here say
//! whether to blend and between which values, and the caller writes the
//! result back with the setters of the entity.

use crate::entity::EasedEntity;
use crate::extrapolation::{extrapolates_rotation, extrapolates_translation};
use crate::math::{Quat, Vec3};
use crate::state::{RotationEasingState, ScaleEasingState, TranslationEasingState};
use crate::tick::{tick_is_newer_than, tick_is_newer_than_spec, LastEasingTick, SystemChangeTick};
use vstd::prelude::*;

verus! {

/// The entity after its translation easing state, if any, was cleared.
pub open spec fn translation_easing_cleared(entity: EasedEntity) -> EasedEntity {
    if entity.translation_easing is Some {
        EasedEntity { translation_easing: Some(TranslationEasingState::empty()), ..entity }
    } else {
        entity
    }
}

/// The entity after its rotation easing state, if any, was cleared.
pub open spec fn rotation_easing_cleared(entity: EasedEntity) -> EasedEntity {
    if entity.rotation_easing is Some {
        EasedEntity { rotation_easing: Some(RotationEasingState::empty()), ..entity }
    } else {
        entity
    }
}

/// The entity after its scale easing state, if any, was cleared.
pub open spec fn scale_easing_cleared(entity: EasedEntity) -> EasedEntity {
    if entity.scale_easing is Some {
        EasedEntity { scale_easing: Some(ScaleEasingState::empty()), ..entity }
    } else {
        entity
    }
}

/// The entity after the end of its translation easing, if it has one, was
/// put on display: what was blended so far is completed. A translation that
/// is extrapolated is left alone, since it was put back to its start.
pub open spec fn translation_end_applied(entity: EasedEntity, this_run: u32) -> EasedEntity {
    if entity.translation_easing is Some && entity.translation_easing->Some_0.end is Some
        && !extrapolates_translation(entity) {
        entity.with_translation(entity.translation_easing->Some_0.end->Some_0, this_run)
    } else {
        entity
    }
}

/// The entity after the end of its rotation easing, if it has one, was put
/// on display. A rotation that is extrapolated is left alone, since it was
/// put back to its start.
pub open spec fn rotation_end_applied(entity: EasedEntity, this_run: u32) -> EasedEntity {
    if entity.rotation_easing is Some && entity.rotation_easing->Some_0.end is Some
        && !extrapolates_rotation(entity) {
        entity.with_rotation(entity.rotation_easing->Some_0.end->Some_0, this_run)
    } else {
        entity
    }
}

/// The entity after the end of its scale easing, if it has one, was put on
/// display.
pub open spec fn scale_end_applied(entity: EasedEntity, this_run: u32) -> EasedEntity {
    if entity.scale_easing is Some && entity.scale_easing->Some_0.end is Some {
        entity.with_scale(entity.scale_easing->Some_0.end->Some_0, this_run)
    } else {
        entity
    }
}

/// The entity after the reset of its translation easing: a defined end is
/// put on display, then both snapshots are cleared.
pub open spec fn translation_easing_reset(entity: EasedEntity, this_run: u32) -> EasedEntity {
    translation_easing_cleared(translation_end_applied(entity, this_run))
}

/// The entity after the reset of its rotation easing: a defined end is put
/// on display, then both snapshots are cleared.
pub open spec fn rotation_easing_reset(entity: EasedEntity, this_run: u32) -> EasedEntity {
    rotation_easing_cleared(rotation_end_applied(entity, this_run))
}

/// The entity after the reset of its scale easing: a defined end is put on
/// display, then both snapshots are cleared.
pub open spec fn scale_easing_reset(entity: EasedEntity, this_run: u32) -> EasedEntity {
    scale_easing_cleared(scale_end_applied(entity, this_run))
}

/// Resets the translation easing at the start of a fixed step. If the
/// easing has an end, the translation is put there first, so that the
/// simulation never starts from a value that was blended only in part;
/// then the start and the end are cleared.
///
/// This holds whoever has filled the state, and also for an entity that
/// opts out of translation easing. The one exception is a translation that
/// is extrapolated: it was put back to the start of its easing, which is
/// where the simulation has left it.
pub fn reset_translation_easing(entity: &mut EasedEntity, this_run: u32)
    ensures
        *final(entity) == translation_easing_reset(*old(entity), this_run),
{
    if let Some(easing) = entity.translation_easing {
        let extrapolated = entity.markers.translation_extrapolation
            && !entity.markers.no_translation_easing;
        if let Some(end) = easing.end {
            if !extrapolated {
                entity.set_translation(end, this_run);
            }
        }
        entity.translation_easing = Some(TranslationEasingState::default());
    }
}

/// Resets the rotation easing at the start of a fixed step. If the easing
/// has an end, the rotation is put there first; then the start and the end
/// are cleared.
///
/// This holds whoever has filled the state, and also for an entity that
/// opts out of rotation easing. The one exception is a rotation that is
/// extrapolated: it was put back to the start of its easing.
pub fn reset_rotation_easing(entity: &mut EasedEntity, this_run: u32)
    ensures
        *final(entity) == rotation_easing_reset(*old(entity), this_run),
{
    if let Some(easing) = entity.rotation_easing {
        let extrapolated = entity.markers.rotation_extrapolation
            && !entity.markers.no_rotation_easing;
        if let Some(end) = easing.end {
            if !extrapolated {
                entity.set_rotation(end, this_run);
            }
        }
        entity.rotation_easing = Some(RotationEasingState::default());
    }
}

/// Resets the scale easing at the start of a fixed step. If the easing has
/// an end, the scale is put there first; then the start and the end are
/// cleared.
///
/// This holds whoever has filled the state, and also for an entity that
/// opts out of scale easing.
pub fn reset_scale_easing(entity: &mut EasedEntity, this_run: u32)
    ensures
        *final(entity) == scale_easing_reset(*old(entity), this_run),
{
    if let Some(easing) = entity.scale_easing {
        if let Some(end) = easing.end {
            entity.set_scale(end, this_run);
        }
        entity.scale_easing = Some(ScaleEasingState::default());
    }
}

/// The entity after every easing state that it has was cleared.
pub open spec fn all_easing_cleared(entity: EasedEntity) -> EasedEntity {
    EasedEntity {
        translation_easing: if entity.translation_easing is Some {
            Some(TranslationEasingState::empty())
        } else {
            None
        },
        rotation_easing: if entity.rotation_easing is Some {
            Some(RotationEasingState::empty())
        } else {
            None
        },
        scale_easing: if entity.scale_easing is Some {
            Some(ScaleEasingState::empty())
        } else {
            None
        },
        ..entity
    }
}

/// Clears every easing state of the entity, so that nothing is eased for the
/// remainder of the fixed step and the transform can be set freely. Unlike
/// the reset at the start of a fixed step, this discards the easing: the
/// transform is left where it is.
pub fn reset_easing(entity: &mut EasedEntity)
    ensures
        *final(entity) == all_easing_cleared(*old(entity)),
{
    let translation_easing = match entity.translation_easing {
        Some(_) => Some(TranslationEasingState::default()),
        None => None,
    };
    let rotation_easing = match entity.rotation_easing {
        Some(_) => Some(RotationEasingState::default()),
        None => None,
    };
    let scale_easing = match entity.scale_easing {
        Some(_) => Some(ScaleEasingState::default()),
        None => None,
    };
    *entity = EasedEntity { translation_easing, rotation_easing, scale_easing, ..*entity };
}

/// The entity has an easing state, and its transform was written after
/// values were last eased: the write came from outside the easing.
pub open spec fn is_user_change(
    entity: EasedEntity,
    last_easing_tick: LastEasingTick,
    ticks: SystemChangeTick,
) -> bool {
    &&& entity.has_easing_state()
    &&& tick_is_newer_than_spec(entity.transform_changed, last_easing_tick.tick, ticks.this_run)
}

/// The translation is ready to be eased, and the displayed translation equals
/// neither snapshot.
pub open spec fn translation_was_teleported(entity: EasedEntity) -> bool {
    entity.translation_easing is Some && entity.translation_easing->Some_0.is_left_by(
        entity.transform.translation,
    )
}

/// The rotation is ready to be eased, and the displayed rotation equals
/// neither snapshot.
pub open spec fn rotation_was_teleported(entity: EasedEntity) -> bool {
    entity.rotation_easing is Some && entity.rotation_easing->Some_0.is_left_by(
        entity.transform.rotation,
    )
}

/// The scale is ready to be eased, and the displayed scale equals neither
/// snapshot.
pub open spec fn scale_was_teleported(entity: EasedEntity) -> bool {
    entity.scale_easing is Some && entity.scale_easing->Some_0.is_left_by(entity.transform.scale)
}

/// The entity after the teleport check: on a write from outside, each channel
/// whose displayed value has left both snapshots is cleared; nothing else
/// changes.
pub open spec fn after_transform_change(
    entity: EasedEntity,
    last_easing_tick: LastEasingTick,
    ticks: SystemChangeTick,
) -> EasedEntity {
    if is_user_change(entity, last_easing_tick, ticks) {
        EasedEntity {
            translation_easing: if translation_was_teleported(entity) {
                Some(TranslationEasingState::empty())
            } else {
                entity.translation_easing
            },
            rotation_easing: if rotation_was_teleported(entity) {
                Some(RotationEasingState::empty())
            } else {
                entity.rotation_easing
            },
            scale_easing: if scale_was_teleported(entity) {
                Some(ScaleEasingState::empty())
            } else {
                entity.scale_easing
            },
            ..entity
        }
    } else {
        entity
    }
}

/// Clears the easing states of the channels that were written from outside
/// the fixed step and outside the easing itself, which makes it possible to
/// teleport an entity between two steps.
///
/// A write counts as one from outside when it is newer than the tick of the
/// last easing. When this pass itself last ran plays no part: the pass runs
/// before the easing of the same frame, so a write that is newer than the
/// last easing is also newer than the last run of this pass.
pub fn reset_easing_states_on_transform_change(
    entity: &mut EasedEntity,
    last_easing_tick: LastEasingTick,
    system_change_tick: SystemChangeTick,
)
    ensures
        *final(entity) == after_transform_change(*old(entity), last_easing_tick, system_change_tick),
{
    let has_state = entity.translation_easing.is_some() || entity.rotation_easing.is_some()
        || entity.scale_easing.is_some();
    if !has_state {
        return ;
    }
    let this_run = system_change_tick.this_run();
    let last_changed = entity.transform_changed;
    let is_user_change = tick_is_newer_than(last_changed, last_easing_tick.get(), this_run);
    if !is_user_change {
        return ;
    }
    if let Some(translation_easing) = entity.translation_easing {
        if translation_easing.left_by(entity.transform.translation) {
            entity.translation_easing = Some(TranslationEasingState::default());
        }
    }
    if let Some(rotation_easing) = entity.rotation_easing {
        if rotation_easing.left_by(entity.transform.rotation) {
            entity.rotation_easing = Some(RotationEasingState::default());
        }
    }
    if let Some(scale_easing) = entity.scale_easing {
        if scale_easing.left_by(entity.transform.scale) {
            entity.scale_easing = Some(ScaleEasingState::default());
        }
    }
}

/// The snapshots between which the translation is to be blended linearly:
/// those of a ready channel, on an entity that neither opts out of
/// translation easing nor blends its translation in another way.
pub open spec fn translation_lerp_ends(entity: EasedEntity) -> Option<(Vec3, Vec3)> {
    if entity.translation_easing is Some && !entity.markers.nonlinear_translation_easing
        && !entity.markers.no_translation_easing {
        entity.translation_easing->Some_0.snapshots()
    } else {
        None
    }
}

/// The snapshots between which the rotation is to be blended along the
/// shortest arc: those of a ready channel, on an entity that neither opts out
/// of rotation easing nor blends its rotation in another way.
pub open spec fn rotation_slerp_ends(entity: EasedEntity) -> Option<(Quat, Quat)> {
    if entity.rotation_easing is Some && !entity.markers.nonlinear_rotation_easing
        && !entity.markers.no_rotation_easing {
        entity.rotation_easing->Some_0.snapshots()
    } else {
        None
    }
}

/// The snapshots between which the scale is to be blended linearly: those of
/// a ready channel, on an entity that does not opt out of scale easing.
pub open spec fn scale_lerp_ends(entity: EasedEntity) -> Option<(Vec3, Vec3)> {
    if entity.scale_easing is Some && !entity.markers.no_scale_easing {
        entity.scale_easing->Some_0.snapshots()
    } else {
        None
    }
}

/// Decides whether the translation is eased linearly in this frame, and
/// between which values. The caller blends them and writes the result with
/// `set_translation`.
pub fn ease_translation_lerp(entity: &EasedEntity) -> (ends: Option<(Vec3, Vec3)>)
    ensures
        ends == translation_lerp_ends(*entity),
{
    if entity.markers.nonlinear_translation_easing || entity.markers.no_translation_easing {
        return None;
    }
    match entity.translation_easing {
        Some(interpolation) => interpolation.ready(),
        None => None,
    }
}

/// Decides whether the rotation is eased along the shortest arc in this
/// frame, and between which values. The caller blends them and writes the
/// result with `set_rotation`.
pub fn ease_rotation_slerp(entity: &EasedEntity) -> (ends: Option<(Quat, Quat)>)
    ensures
        ends == rotation_slerp_ends(*entity),
{
    if entity.markers.nonlinear_rotation_easing || entity.markers.no_rotation_easing {
        return None;
    }
    match entity.rotation_easing {
        Some(interpolation) => interpolation.ready(),
        None => None,
    }
}

/// Decides whether the scale is eased linearly in this frame, and between
/// which values. The caller blends them and writes the result with
/// `set_scale`.
pub fn ease_scale_lerp(entity: &EasedEntity) -> (ends: Option<(Vec3, Vec3)>)
    ensures
        ends == scale_lerp_ends(*entity),
{
    if entity.markers.no_scale_easing {
        return None;
    }
    match entity.scale_easing {
        Some(interpolation) => interpolation.ready(),
        None => None,
    }
}

} // verus!
