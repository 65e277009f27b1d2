//! What holds of the passes taken together.
//!
//! Each statement here speaks of more than one pass. It is stated over the
//! same specification functions as the contracts of the passes, so it holds
//! of the executable functions as well.

use crate::easing::{
    after_transform_change, all_easing_cleared, rotation_easing_reset, rotation_end_applied,
    rotation_slerp_ends, scale_easing_reset, scale_end_applied, scale_lerp_ends,
    translation_easing_reset, translation_end_applied, translation_lerp_ends,
};
use crate::entity::EasedEntity;
use crate::extrapolation::{
    extrapolates_rotation, extrapolates_translation, rotation_extrapolation_undone,
    rotation_extrapolation_updated, translation_extrapolation_undone,
    translation_extrapolation_updated,
};
use crate::hermite::{rotation_hermite_due, translation_hermite_due};
use crate::interpolation::{
    interpolates_rotation, interpolates_scale, interpolates_translation, rotation_easing_completed,
    rotation_end_recorded, rotation_start_recorded, scale_easing_completed, scale_end_recorded,
    scale_start_recorded, translation_easing_completed, translation_end_recorded,
    translation_start_recorded,
};
use crate::math::{Quat, Transform, Vec3};
use crate::schedule::System;
use crate::state::{RotationEasingState, ScaleEasingState, TranslationEasingState};
use crate::tick::{tick_is_newer_than_spec, LastEasingTick, SystemChangeTick};
use crate::world::{effect, needs_host};
use vstd::prelude::*;

verus! {

/// The ticks of the three passes that reset the easing states.
pub struct ResetTicks {
    pub translation: u32,
    pub rotation: u32,
    pub scale: u32,
}

/// The entity after the three passes that reset the easing states at the
/// start of a fixed step.
pub open spec fn after_reset(entity: EasedEntity, ticks: ResetTicks) -> EasedEntity {
    scale_easing_reset(
        rotation_easing_reset(
            translation_easing_reset(entity, ticks.translation),
            ticks.rotation,
        ),
        ticks.scale,
    )
}

/// The value of each channel that is on display after the reset: the end of
/// the easing of that channel, if it has one and the channel is not
/// extrapolated, and the value that was on display before otherwise.
pub open spec fn transform_after_reset(entity: EasedEntity) -> Transform {
    Transform {
        translation: translation_end_applied(entity, 0).transform.translation,
        rotation: rotation_end_applied(entity, 0).transform.rotation,
        scale: scale_end_applied(entity, 0).transform.scale,
    }
}

/// After the reset at the start of a fixed step, every easing state that the
/// entity has is empty, whatever it held before, so that no channel is left
/// with a start and no end. Each channel whose easing had an end is on
/// display at that end, unless it is extrapolated: nothing that was blended
/// only in part is handed to the simulation. The markers and the presence of
/// each easing state are as before, and but for the states and the dates of
/// the writes the entity is what `reset_easing` makes of it.
pub proof fn reset_leaves_every_channel_empty(entity: EasedEntity, ticks: ResetTicks)
    ensures
        after_reset(entity, ticks).translation_easing == all_easing_cleared(
            entity,
        ).translation_easing,
        after_reset(entity, ticks).rotation_easing == all_easing_cleared(entity).rotation_easing,
        after_reset(entity, ticks).scale_easing == all_easing_cleared(entity).scale_easing,
        after_reset(entity, ticks).translation_easing is Some ==> after_reset(
            entity,
            ticks,
        ).translation_easing->Some_0.is_empty(),
        after_reset(entity, ticks).rotation_easing is Some ==> after_reset(
            entity,
            ticks,
        ).rotation_easing->Some_0.is_empty(),
        after_reset(entity, ticks).scale_easing is Some ==> after_reset(
            entity,
            ticks,
        ).scale_easing->Some_0.is_empty(),
        after_reset(entity, ticks).translation_easing is Some <==> entity.translation_easing
            is Some,
        after_reset(entity, ticks).rotation_easing is Some <==> entity.rotation_easing is Some,
        after_reset(entity, ticks).scale_easing is Some <==> entity.scale_easing is Some,
        after_reset(entity, ticks).transform == transform_after_reset(entity),
        after_reset(entity, ticks).markers == entity.markers,
{
    let t = translation_easing_reset(entity, ticks.translation);
    let r = rotation_easing_reset(t, ticks.rotation);
    assert(t.markers == entity.markers && t.rotation_easing == entity.rotation_easing
        && t.scale_easing == entity.scale_easing);
    assert(t.transform.rotation == entity.transform.rotation && t.transform.scale
        == entity.transform.scale);
    assert(r.markers == entity.markers && r.translation_easing == t.translation_easing
        && r.scale_easing == entity.scale_easing);
    assert(r.transform.translation == t.transform.translation && r.transform.scale
        == entity.transform.scale);
}

/// A channel whose easing holds an end when a fixed step begins is put to
/// that end by the reset, whoever has filled the state and whatever was on
/// display, and its state is then empty. The one exception is a channel
/// that is extrapolated, which is put back to its start before the reset.
pub proof fn reset_completes_what_was_eased(entity: EasedEntity, ticks: ResetTicks)
    ensures
        entity.translation_easing is Some && entity.translation_easing->Some_0.end is Some
            && !extrapolates_translation(entity) ==> after_reset(
            entity,
            ticks,
        ).transform.translation == entity.translation_easing->Some_0.end->Some_0 && after_reset(
            entity,
            ticks,
        ).translation_easing == Some(TranslationEasingState::empty()),
        entity.rotation_easing is Some && entity.rotation_easing->Some_0.end is Some
            && !extrapolates_rotation(entity) ==> after_reset(entity, ticks).transform.rotation
            == entity.rotation_easing->Some_0.end->Some_0 && after_reset(
            entity,
            ticks,
        ).rotation_easing == Some(RotationEasingState::empty()),
        entity.scale_easing is Some && entity.scale_easing->Some_0.end is Some ==> after_reset(
            entity,
            ticks,
        ).transform.scale == entity.scale_easing->Some_0.end->Some_0 && after_reset(
            entity,
            ticks,
        ).scale_easing == Some(ScaleEasingState::empty()),
        !(entity.translation_easing is Some && entity.translation_easing->Some_0.end is Some
            && !extrapolates_translation(entity)) ==> after_reset(
            entity,
            ticks,
        ).transform.translation == entity.transform.translation,
        !(entity.rotation_easing is Some && entity.rotation_easing->Some_0.end is Some
            && !extrapolates_rotation(entity)) ==> after_reset(entity, ticks).transform.rotation
            == entity.transform.rotation,
        !(entity.scale_easing is Some && entity.scale_easing->Some_0.end is Some) ==> after_reset(
            entity,
            ticks,
        ).transform.scale == entity.transform.scale,
{
    reset_leaves_every_channel_empty(entity, ticks);
}

/// After the reset, nothing is blended until a producer of snapshots has run
/// again: no straight blend and no cubic blend is due on any channel,
/// whatever the velocities.
pub proof fn nothing_is_eased_after_reset(
    entity: EasedEntity,
    ticks: ResetTicks,
    start_velocity: Option<Vec3>,
    end_velocity: Option<Vec3>,
)
    ensures
        translation_lerp_ends(after_reset(entity, ticks)) is None,
        rotation_slerp_ends(after_reset(entity, ticks)) is None,
        scale_lerp_ends(after_reset(entity, ticks)) is None,
        translation_hermite_due(after_reset(entity, ticks), start_velocity, end_velocity) is None,
        rotation_hermite_due(after_reset(entity, ticks), start_velocity, end_velocity) is None,
{
    reset_leaves_every_channel_empty(entity, ticks);
    let cleared = after_reset(entity, ticks);
    assert(cleared.translation_easing is Some ==> cleared.translation_easing->Some_0.snapshots()
        is None);
    assert(cleared.rotation_easing is Some ==> cleared.rotation_easing->Some_0.snapshots() is None);
    assert(cleared.scale_easing is Some ==> cleared.scale_easing->Some_0.snapshots() is None);
}

/// A translation that is written from outside after the last easing, to a
/// value that equals neither snapshot of a ready channel, stays on display:
/// the teleport check of the next frame empties the channel and keeps the
/// transform, and after that no blend of the translation is due, whatever
/// the overstep.
pub proof fn teleported_translation_is_kept(
    entity: EasedEntity,
    value: Vec3,
    tick: u32,
    last_easing_tick: LastEasingTick,
    ticks: SystemChangeTick,
    start_velocity: Option<Vec3>,
    end_velocity: Option<Vec3>,
)
    requires
        entity.translation_easing is Some,
        entity.translation_easing->Some_0.is_left_by(value),
        tick_is_newer_than_spec(tick, last_easing_tick.tick, ticks.this_run),
    ensures
        ({
            let written = entity.with_translation(value, tick);
            let checked = after_transform_change(written, last_easing_tick, ticks);
            &&& checked.translation_easing == Some(TranslationEasingState::empty())
            &&& checked.transform == written.transform
            &&& checked.transform.translation == value
            &&& translation_lerp_ends(checked) is None
            &&& translation_hermite_due(checked, start_velocity, end_velocity) is None
        }),
{
}

/// A rotation that is written from outside after the last easing, to a
/// value that equals neither snapshot of a ready channel, stays on display.
pub proof fn teleported_rotation_is_kept(
    entity: EasedEntity,
    value: Quat,
    tick: u32,
    last_easing_tick: LastEasingTick,
    ticks: SystemChangeTick,
    start_velocity: Option<Vec3>,
    end_velocity: Option<Vec3>,
)
    requires
        entity.rotation_easing is Some,
        entity.rotation_easing->Some_0.is_left_by(value),
        tick_is_newer_than_spec(tick, last_easing_tick.tick, ticks.this_run),
    ensures
        ({
            let written = entity.with_rotation(value, tick);
            let checked = after_transform_change(written, last_easing_tick, ticks);
            &&& checked.rotation_easing == Some(RotationEasingState::empty())
            &&& checked.transform == written.transform
            &&& checked.transform.rotation == value
            &&& rotation_slerp_ends(checked) is None
            &&& rotation_hermite_due(checked, start_velocity, end_velocity) is None
        }),
{
}

/// A scale that is written from outside after the last easing, to a value
/// that equals neither snapshot of a ready channel, stays on display.
pub proof fn teleported_scale_is_kept(
    entity: EasedEntity,
    value: Vec3,
    tick: u32,
    last_easing_tick: LastEasingTick,
    ticks: SystemChangeTick,
)
    requires
        entity.scale_easing is Some,
        entity.scale_easing->Some_0.is_left_by(value),
        tick_is_newer_than_spec(tick, last_easing_tick.tick, ticks.this_run),
    ensures
        ({
            let written = entity.with_scale(value, tick);
            let checked = after_transform_change(written, last_easing_tick, ticks);
            &&& checked.scale_easing == Some(ScaleEasingState::empty())
            &&& checked.transform == written.transform
            &&& checked.transform.scale == value
            &&& scale_lerp_ends(checked) is None
        }),
{
}

/// A write that lands on one of the two snapshots does not interrupt the
/// easing of that channel: the teleport check leaves its state as it is.
pub proof fn write_to_a_snapshot_keeps_the_easing(
    entity: EasedEntity,
    last_easing_tick: LastEasingTick,
    ticks: SystemChangeTick,
)
    ensures
        ({
            let checked = after_transform_change(entity, last_easing_tick, ticks);
            &&& checked.transform == entity.transform
            &&& checked.transform_changed == entity.transform_changed
            &&& checked.markers == entity.markers
            &&& (entity.translation_easing is Some && entity.translation_easing->Some_0.is_ready()
                && (entity.transform.translation.same_as(
                &entity.translation_easing->Some_0.start->Some_0,
            ) || entity.transform.translation.same_as(
                &entity.translation_easing->Some_0.end->Some_0,
            )) ==> checked.translation_easing == entity.translation_easing)
            &&& (entity.rotation_easing is Some && entity.rotation_easing->Some_0.is_ready() && (
            entity.transform.rotation.same_as(&entity.rotation_easing->Some_0.start->Some_0)
                || entity.transform.rotation.same_as(&entity.rotation_easing->Some_0.end->Some_0))
                ==> checked.rotation_easing == entity.rotation_easing)
            &&& (entity.scale_easing is Some && entity.scale_easing->Some_0.is_ready() && (
            entity.transform.scale.same_as(&entity.scale_easing->Some_0.start->Some_0)
                || entity.transform.scale.same_as(&entity.scale_easing->Some_0.end->Some_0))
                ==> checked.scale_easing == entity.scale_easing)
        }),
{
}

/// A transform that was last written by the blend itself, no later than the
/// last easing tick, is never taken for a teleport.
pub proof fn blend_is_no_teleport(
    entity: EasedEntity,
    last_easing_tick: LastEasingTick,
    ticks: SystemChangeTick,
)
    requires
        !tick_is_newer_than_spec(entity.transform_changed, last_easing_tick.tick, ticks.this_run),
    ensures
        after_transform_change(entity, last_easing_tick, ticks) == entity,
{
}

/// One cycle of interpolation: the easing is reset and the start is
/// recorded, the simulation moves the translation to `moved`, the end is
/// recorded. The channel is then ready and is blended from the translation
/// with which the step began to `moved`; when the next step begins, `moved`
/// is put on display, whatever was blended in between, by the pass that
/// completes the interpolation and by the reset alike.
pub proof fn interpolation_runs_between_both_steps(
    entity: EasedEntity,
    moved: Vec3,
    blended: Vec3,
    reset_tick: u32,
    step_tick: u32,
    blend_tick: u32,
    next_tick: u32,
)
    requires
        interpolates_translation(entity),
        !entity.markers.nonlinear_translation_easing,
    ensures
        ({
            let reset = translation_easing_reset(entity, reset_tick);
            let started = translation_start_recorded(reset);
            let ended = translation_end_recorded(started.with_translation(moved, step_tick));
            let shown = ended.with_translation(blended, blend_tick);
            let completed = translation_easing_completed(shown, next_tick);
            &&& started.translation_easing->Some_0.is_started()
            &&& ended.translation_easing->Some_0.is_ready()
            &&& translation_lerp_ends(ended) == Some((reset.transform.translation, moved))
            &&& translation_lerp_ends(shown) == Some((reset.transform.translation, moved))
            &&& completed.transform.translation == moved
            &&& !extrapolates_translation(entity) ==> translation_easing_reset(
                shown,
                next_tick,
            ).transform.translation == moved
        }),
{
}

/// One cycle of interpolation of the rotation, as for the translation.
pub proof fn rotation_interpolation_runs_between_both_steps(
    entity: EasedEntity,
    moved: Quat,
    blended: Quat,
    reset_tick: u32,
    step_tick: u32,
    blend_tick: u32,
    next_tick: u32,
)
    requires
        interpolates_rotation(entity),
        !entity.markers.nonlinear_rotation_easing,
    ensures
        ({
            let reset = rotation_easing_reset(entity, reset_tick);
            let started = rotation_start_recorded(reset);
            let ended = rotation_end_recorded(started.with_rotation(moved, step_tick));
            let shown = ended.with_rotation(blended, blend_tick);
            let completed = rotation_easing_completed(shown, next_tick);
            &&& started.rotation_easing->Some_0.is_started()
            &&& ended.rotation_easing->Some_0.is_ready()
            &&& rotation_slerp_ends(ended) == Some((reset.transform.rotation, moved))
            &&& rotation_slerp_ends(shown) == Some((reset.transform.rotation, moved))
            &&& completed.transform.rotation == moved
            &&& !extrapolates_rotation(entity) ==> rotation_easing_reset(
                shown,
                next_tick,
            ).transform.rotation == moved
        }),
{
}

/// One cycle of interpolation of the scale, as for the translation.
pub proof fn scale_interpolation_runs_between_both_steps(
    entity: EasedEntity,
    moved: Vec3,
    blended: Vec3,
    reset_tick: u32,
    step_tick: u32,
    blend_tick: u32,
    next_tick: u32,
)
    requires
        interpolates_scale(entity),
    ensures
        ({
            let reset = scale_easing_reset(entity, reset_tick);
            let started = scale_start_recorded(reset);
            let ended = scale_end_recorded(started.with_scale(moved, step_tick));
            let shown = ended.with_scale(blended, blend_tick);
            let completed = scale_easing_completed(shown, next_tick);
            &&& started.scale_easing->Some_0.is_started()
            &&& ended.scale_easing->Some_0.is_ready()
            &&& scale_lerp_ends(ended) == Some((reset.transform.scale, moved))
            &&& scale_lerp_ends(shown) == Some((reset.transform.scale, moved))
            &&& completed.transform.scale == moved
            &&& scale_easing_reset(shown, next_tick).transform.scale == moved
        }),
{
}

/// One cycle of extrapolation: at the end of a step the easing is set to run
/// from the displayed translation to the predicted one, and when the next
/// step begins the translation is put back to where the easing started,
/// whatever was blended in between. A wrong prediction is corrected there.
pub proof fn extrapolation_is_undone_at_the_next_step(
    entity: EasedEntity,
    predicted: Vec3,
    blended: Vec3,
    blend_tick: u32,
    next_tick: u32,
)
    requires
        extrapolates_translation(entity),
        !entity.markers.nonlinear_translation_easing,
    ensures
        ({
            let updated = translation_extrapolation_updated(entity, predicted);
            let shown = updated.with_translation(blended, blend_tick);
            let undone = translation_extrapolation_undone(shown, next_tick);
            &&& updated.translation_easing->Some_0.is_ready()
            &&& updated.transform == entity.transform
            &&& translation_lerp_ends(updated) == Some((entity.transform.translation, predicted))
            &&& undone.transform.translation == entity.transform.translation
        }),
{
}

/// One cycle of extrapolation of the rotation, as for the translation.
pub proof fn rotation_extrapolation_is_undone_at_the_next_step(
    entity: EasedEntity,
    predicted: Quat,
    blended: Quat,
    blend_tick: u32,
    next_tick: u32,
)
    requires
        extrapolates_rotation(entity),
        !entity.markers.nonlinear_rotation_easing,
    ensures
        ({
            let updated = rotation_extrapolation_updated(entity, predicted);
            let shown = updated.with_rotation(blended, blend_tick);
            let undone = rotation_extrapolation_undone(shown, next_tick);
            &&& updated.rotation_easing->Some_0.is_ready()
            &&& updated.transform == entity.transform
            &&& rotation_slerp_ends(updated) == Some((entity.transform.rotation, predicted))
            &&& undone.transform.rotation == entity.transform.rotation
        }),
{
}

/// A channel is blended in at most one way: where the cubic blend of a
/// channel is due, the entity carries the marker that switches the straight
/// blend of that channel off, provided the marker for the cubic blend always
/// brings that marker along.
pub proof fn one_blend_per_channel(
    entity: EasedEntity,
    start_velocity: Option<Vec3>,
    end_velocity: Option<Vec3>,
)
    requires
        entity.markers.translation_hermite_easing ==> entity.markers.nonlinear_translation_easing,
        entity.markers.rotation_hermite_easing ==> entity.markers.nonlinear_rotation_easing,
    ensures
        translation_hermite_due(entity, start_velocity, end_velocity) is Some
            ==> translation_lerp_ends(entity) is None,
        rotation_hermite_due(entity, start_velocity, end_velocity) is Some ==> rotation_slerp_ends(
            entity,
        ) is None,
{
}

/// An entity that opts out of the easing of its translation is not given
/// snapshots of it and is not eased: every pass of interpolation and of
/// extrapolation leaves the entity as it is, and no blend of the translation
/// is due. Only the reset still completes a state that holds an end.
pub proof fn opted_out_translation_is_left_alone(
    entity: EasedEntity,
    predicted: Vec3,
    this_run: u32,
    start_velocity: Option<Vec3>,
    end_velocity: Option<Vec3>,
)
    requires
        entity.markers.no_translation_easing,
    ensures
        translation_easing_completed(entity, this_run) == entity,
        translation_start_recorded(entity) == entity,
        translation_end_recorded(entity) == entity,
        translation_extrapolation_undone(entity, this_run) == entity,
        translation_extrapolation_updated(entity, predicted) == entity,
        translation_lerp_ends(entity) is None,
        translation_hermite_due(entity, start_velocity, end_velocity) is None,
{
}

/// An entity that opts out of the easing of its rotation is not given
/// snapshots of it and is not eased.
pub proof fn opted_out_rotation_is_left_alone(
    entity: EasedEntity,
    predicted: Quat,
    this_run: u32,
    start_velocity: Option<Vec3>,
    end_velocity: Option<Vec3>,
)
    requires
        entity.markers.no_rotation_easing,
    ensures
        rotation_easing_completed(entity, this_run) == entity,
        rotation_start_recorded(entity) == entity,
        rotation_end_recorded(entity) == entity,
        rotation_extrapolation_undone(entity, this_run) == entity,
        rotation_extrapolation_updated(entity, predicted) == entity,
        rotation_slerp_ends(entity) is None,
        rotation_hermite_due(entity, start_velocity, end_velocity) is None,
{
}

/// An entity that opts out of the easing of its scale is not given
/// snapshots of it and is not eased.
pub proof fn opted_out_scale_is_left_alone(entity: EasedEntity, this_run: u32)
    requires
        entity.markers.no_scale_easing,
    ensures
        scale_easing_completed(entity, this_run) == entity,
        scale_start_recorded(entity) == entity,
        scale_end_recorded(entity) == entity,
        scale_lerp_ends(entity) is None,
{
}

/// The entity carries no marker that switches interpolation or extrapolation
/// on for any channel.
pub open spec fn has_no_strategy(entity: EasedEntity) -> bool {
    &&& !entity.markers.translation_interpolation
    &&& !entity.markers.rotation_interpolation
    &&& !entity.markers.scale_interpolation
    &&& !entity.markers.translation_extrapolation
    &&& !entity.markers.rotation_extrapolation
}

/// No easing state of the entity holds a snapshot.
pub open spec fn holds_no_snapshot(entity: EasedEntity) -> bool {
    &&& entity.translation_easing is Some ==> entity.translation_easing->Some_0.is_empty()
    &&& entity.rotation_easing is Some ==> entity.rotation_easing->Some_0.is_empty()
    &&& entity.scale_easing is Some ==> entity.scale_easing->Some_0.is_empty()
}

/// An entity without a marker for interpolation or extrapolation never gets
/// a snapshot: whichever pass runs on it, its easing states stay without
/// one, and its transform stays as it was. The passes that the host runs for
/// such an entity do nothing either.
pub proof fn without_strategy_nothing_starts(
    entity: EasedEntity,
    system: System,
    last_easing_tick: LastEasingTick,
    ticks: SystemChangeTick,
    predicted_translation: Vec3,
    predicted_rotation: Quat,
)
    requires
        has_no_strategy(entity),
        holds_no_snapshot(entity),
    ensures
        holds_no_snapshot(effect(system, entity, last_easing_tick, ticks)),
        effect(system, entity, last_easing_tick, ticks).transform == entity.transform,
        effect(system, entity, last_easing_tick, ticks).markers == entity.markers,
        translation_extrapolation_updated(entity, predicted_translation) == entity,
        rotation_extrapolation_updated(entity, predicted_rotation) == entity,
        translation_lerp_ends(entity) is None,
        rotation_slerp_ends(entity) is None,
        scale_lerp_ends(entity) is None,
{
}

/// A pass that the host runs entity by entity has no effect of its own.
pub proof fn host_passes_have_no_effect_of_their_own(
    entity: EasedEntity,
    system: System,
    last_easing_tick: LastEasingTick,
    ticks: SystemChangeTick,
)
    requires
        needs_host(system),
    ensures
        effect(system, entity, last_easing_tick, ticks) == entity,
{
}

/// The ticks of the passes that write to the transform when a fixed step
/// begins.
pub struct FixedFirstTicks {
    pub complete_translation: u32,
    pub complete_rotation: u32,
    pub complete_scale: u32,
    pub undo_translation: u32,
    pub undo_rotation: u32,
    pub reset: ResetTicks,
}

/// The entity after the passes that run before the easing states are reset:
/// the previous easing of each channel is completed, if it was interpolated,
/// or undone, if it was extrapolated.
pub open spec fn after_completing(entity: EasedEntity, ticks: FixedFirstTicks) -> EasedEntity {
    rotation_extrapolation_undone(
        translation_extrapolation_undone(
            scale_easing_completed(
                rotation_easing_completed(
                    translation_easing_completed(entity, ticks.complete_translation),
                    ticks.complete_rotation,
                ),
                ticks.complete_scale,
            ),
            ticks.undo_translation,
        ),
        ticks.undo_rotation,
    )
}

/// The entity after the passes that reset every easing state and record the
/// start of the interpolation.
pub open spec fn after_restarting(entity: EasedEntity, ticks: ResetTicks) -> EasedEntity {
    scale_start_recorded(
        rotation_start_recorded(translation_start_recorded(after_reset(entity, ticks))),
    )
}

/// The entity after the passes of the start of a fixed step, in the order in
/// which they run.
#[verifier::opaque]
pub open spec fn after_fixed_first(entity: EasedEntity, ticks: FixedFirstTicks) -> EasedEntity {
    after_restarting(after_completing(entity, ticks), ticks.reset)
}

/// The transform from which the simulation starts in a fixed step: what is
/// on display once the previous easing was completed or undone and the
/// easing states were reset.
pub open spec fn transform_at_step_begin(entity: EasedEntity, ticks: FixedFirstTicks) -> Transform {
    transform_after_reset(after_completing(entity, ticks))
}

/// The entity after the passes of the end of a fixed step, in the order in
/// which they run: the end of the interpolation is recorded, and the channels
/// for which the host has predicted a value are set up for extrapolation.
#[verifier::opaque]
pub open spec fn after_fixed_last(
    entity: EasedEntity,
    predicted_translation: Option<Vec3>,
    predicted_rotation: Option<Quat>,
) -> EasedEntity {
    let ended = scale_end_recorded(rotation_end_recorded(translation_end_recorded(entity)));
    let translated = if predicted_translation is Some {
        translation_extrapolation_updated(ended, predicted_translation->Some_0)
    } else {
        ended
    };
    if predicted_rotation is Some {
        rotation_extrapolation_updated(translated, predicted_rotation->Some_0)
    } else {
        translated
    }
}

/// The entity after one whole fixed step in which the simulation has left
/// the transform at `moved`.
pub open spec fn after_fixed_step(
    entity: EasedEntity,
    ticks: FixedFirstTicks,
    moved: Transform,
    moved_tick: u32,
    predicted_translation: Option<Vec3>,
    predicted_rotation: Option<Quat>,
) -> EasedEntity {
    after_fixed_last(
        EasedEntity {
            transform: moved,
            transform_changed: moved_tick,
            ..after_fixed_first(entity, ticks)
        },
        predicted_translation,
        predicted_rotation,
    )
}

/// The passes that run before the easing states are reset write to the
/// transform only: the markers and the easing states stay as they are.
pub proof fn completing_writes_the_transform_only(entity: EasedEntity, ticks: FixedFirstTicks)
    ensures
        after_completing(entity, ticks).markers == entity.markers,
        after_completing(entity, ticks).translation_easing == entity.translation_easing,
        after_completing(entity, ticks).rotation_easing == entity.rotation_easing,
        after_completing(entity, ticks).scale_easing == entity.scale_easing,
{
    let a = translation_easing_completed(entity, ticks.complete_translation);
    let b = rotation_easing_completed(a, ticks.complete_rotation);
    let c = scale_easing_completed(b, ticks.complete_scale);
    let d = translation_extrapolation_undone(c, ticks.undo_translation);
    assert(a.markers == entity.markers && a.translation_easing == entity.translation_easing
        && a.rotation_easing == entity.rotation_easing && a.scale_easing == entity.scale_easing);
    assert(b.markers == entity.markers && b.translation_easing == entity.translation_easing
        && b.rotation_easing == entity.rotation_easing && b.scale_easing == entity.scale_easing);
    assert(c.markers == entity.markers && c.translation_easing == entity.translation_easing
        && c.rotation_easing == entity.rotation_easing && c.scale_easing == entity.scale_easing);
    assert(d.markers == entity.markers && d.translation_easing == entity.translation_easing
        && d.rotation_easing == entity.rotation_easing && d.scale_easing == entity.scale_easing);
}

/// After the easing states were reset and the start of the interpolation was
/// recorded, a channel that is interpolated has the displayed value as its
/// start and no end, every other channel is empty, and the transform is the
/// one that the reset has left.
pub proof fn restarting_by_channel(entity: EasedEntity, ticks: ResetTicks)
    ensures
        after_restarting(entity, ticks).markers == entity.markers,
        after_restarting(entity, ticks).transform == transform_after_reset(entity),
        after_restarting(entity, ticks).translation_easing == if entity.translation_easing
            is Some {
            Some(
                TranslationEasingState {
                    start: if interpolates_translation(entity) {
                        Some(transform_after_reset(entity).translation)
                    } else {
                        None
                    },
                    end: None,
                },
            )
        } else {
            None
        },
        after_restarting(entity, ticks).rotation_easing == if entity.rotation_easing is Some {
            Some(
                RotationEasingState {
                    start: if interpolates_rotation(entity) {
                        Some(transform_after_reset(entity).rotation)
                    } else {
                        None
                    },
                    end: None,
                },
            )
        } else {
            None
        },
        after_restarting(entity, ticks).scale_easing == if entity.scale_easing is Some {
            Some(
                ScaleEasingState {
                    start: if interpolates_scale(entity) {
                        Some(transform_after_reset(entity).scale)
                    } else {
                        None
                    },
                    end: None,
                },
            )
        } else {
            None
        },
{
    reset_leaves_every_channel_empty(entity, ticks);
    let cleared = after_reset(entity, ticks);
    let t = translation_start_recorded(cleared);
    let r = rotation_start_recorded(t);
    let s = scale_start_recorded(r);
    assert(t.markers == entity.markers && t.transform == cleared.transform);
    assert(t.rotation_easing == cleared.rotation_easing && t.scale_easing
        == cleared.scale_easing);
    assert(r.markers == entity.markers && r.transform == cleared.transform);
    assert(r.translation_easing == t.translation_easing && r.scale_easing
        == cleared.scale_easing);
    assert(s.translation_easing == t.translation_easing && s.rotation_easing
        == r.rotation_easing);
}

/// What the end of a fixed step makes of each channel: a channel for which a
/// value was predicted, and which is extrapolated, runs from the displayed
/// value to the predicted one; otherwise a channel that is interpolated gets
/// the displayed value as its end; otherwise it stays as it is. Nothing else
/// changes.
pub proof fn fixed_last_by_channel(
    entity: EasedEntity,
    predicted_translation: Option<Vec3>,
    predicted_rotation: Option<Quat>,
)
    ensures
        ({
            let after = after_fixed_last(entity, predicted_translation, predicted_rotation);
            &&& after.markers == entity.markers
            &&& after.transform == entity.transform
            &&& after.transform_changed == entity.transform_changed
            &&& after.translation_easing == if predicted_translation is Some
                && extrapolates_translation(entity) {
                Some(
                    TranslationEasingState {
                        start: Some(entity.transform.translation),
                        end: predicted_translation,
                    },
                )
            } else if interpolates_translation(entity) {
                Some(
                    TranslationEasingState {
                        start: entity.translation_easing->Some_0.start,
                        end: Some(entity.transform.translation),
                    },
                )
            } else {
                entity.translation_easing
            }
            &&& after.rotation_easing == if predicted_rotation is Some && extrapolates_rotation(
                entity,
            ) {
                Some(
                    RotationEasingState {
                        start: Some(entity.transform.rotation),
                        end: predicted_rotation,
                    },
                )
            } else if interpolates_rotation(entity) {
                Some(
                    RotationEasingState {
                        start: entity.rotation_easing->Some_0.start,
                        end: Some(entity.transform.rotation),
                    },
                )
            } else {
                entity.rotation_easing
            }
            &&& after.scale_easing == if interpolates_scale(entity) {
                Some(
                    ScaleEasingState {
                        start: entity.scale_easing->Some_0.start,
                        end: Some(entity.transform.scale),
                    },
                )
            } else {
                entity.scale_easing
            }
        }),
{
    reveal(after_fixed_last);
    let t = translation_end_recorded(entity);
    let r = rotation_end_recorded(t);
    let ended = scale_end_recorded(r);
    assert(t.markers == entity.markers && t.transform == entity.transform);
    assert(t.rotation_easing == entity.rotation_easing && t.scale_easing == entity.scale_easing);
    assert(r.markers == entity.markers && r.transform == entity.transform);
    assert(r.translation_easing == t.translation_easing && r.scale_easing == entity.scale_easing);
    assert(ended.markers == entity.markers && ended.transform == entity.transform);
    assert(ended.translation_easing == t.translation_easing && ended.rotation_easing
        == r.rotation_easing);
    let translated = if predicted_translation is Some {
        translation_extrapolation_updated(ended, predicted_translation->Some_0)
    } else {
        ended
    };
    assert(translated.markers == entity.markers && translated.transform == entity.transform);
    assert(translated.rotation_easing == ended.rotation_easing && translated.scale_easing
        == ended.scale_easing);
}

/// What one whole fixed step makes of each channel, whatever the entity held
/// when the step began.
proof fn fixed_step_by_channel(
    entity: EasedEntity,
    ticks: FixedFirstTicks,
    moved: Transform,
    moved_tick: u32,
    predicted_translation: Option<Vec3>,
    predicted_rotation: Option<Quat>,
)
    ensures
        ({
            let after = after_fixed_step(
                entity,
                ticks,
                moved,
                moved_tick,
                predicted_translation,
                predicted_rotation,
            );
            let begun = transform_at_step_begin(entity, ticks);
            &&& after.transform == moved
            &&& after.markers == entity.markers
            &&& after.translation_easing == if entity.translation_easing is None {
                None
            } else if predicted_translation is Some && extrapolates_translation(entity) {
                Some(
                    TranslationEasingState {
                        start: Some(moved.translation),
                        end: predicted_translation,
                    },
                )
            } else if interpolates_translation(entity) {
                Some(
                    TranslationEasingState {
                        start: Some(begun.translation),
                        end: Some(moved.translation),
                    },
                )
            } else {
                Some(TranslationEasingState::empty())
            }
            &&& after.rotation_easing == if entity.rotation_easing is None {
                None
            } else if predicted_rotation is Some && extrapolates_rotation(entity) {
                Some(RotationEasingState { start: Some(moved.rotation), end: predicted_rotation })
            } else if interpolates_rotation(entity) {
                Some(
                    RotationEasingState {
                        start: Some(begun.rotation),
                        end: Some(moved.rotation),
                    },
                )
            } else {
                Some(RotationEasingState::empty())
            }
            &&& after.scale_easing == if entity.scale_easing is None {
                None
            } else if interpolates_scale(entity) {
                Some(ScaleEasingState { start: Some(begun.scale), end: Some(moved.scale) })
            } else {
                Some(ScaleEasingState::empty())
            }
        }),
{
    let completed = after_completing(entity, ticks);
    let first = after_fixed_first(entity, ticks);
    assert(first == after_restarting(completed, ticks.reset)) by {
        reveal(after_fixed_first);
    }
    completing_writes_the_transform_only(entity, ticks);
    restarting_by_channel(completed, ticks.reset);
    let stepped = EasedEntity { transform: moved, transform_changed: moved_tick, ..first };
    fixed_last_by_channel(stepped, predicted_translation, predicted_rotation);
}

/// Whatever an entity holds when a fixed step begins, no channel is half
/// set when the step has ended: each easing state is either empty or ready.
/// A state with a start and no end exists only inside the step. The
/// transform is where the simulation has left it, and the markers and the
/// presence of each easing state are as before.
pub proof fn a_fixed_step_leaves_no_channel_half_set(
    entity: EasedEntity,
    ticks: FixedFirstTicks,
    moved: Transform,
    moved_tick: u32,
    predicted_translation: Option<Vec3>,
    predicted_rotation: Option<Quat>,
)
    ensures
        ({
            let after = after_fixed_step(
                entity,
                ticks,
                moved,
                moved_tick,
                predicted_translation,
                predicted_rotation,
            );
            &&& after.transform == moved
            &&& after.markers == entity.markers
            &&& after.translation_easing is Some <==> entity.translation_easing is Some
            &&& after.rotation_easing is Some <==> entity.rotation_easing is Some
            &&& after.scale_easing is Some <==> entity.scale_easing is Some
            &&& after.translation_easing is Some ==> after.translation_easing->Some_0.is_empty()
                || after.translation_easing->Some_0.is_ready()
            &&& after.rotation_easing is Some ==> after.rotation_easing->Some_0.is_empty()
                || after.rotation_easing->Some_0.is_ready()
            &&& after.scale_easing is Some ==> after.scale_easing->Some_0.is_empty()
                || after.scale_easing->Some_0.is_ready()
        }),
{
    fixed_step_by_channel(
        entity,
        ticks,
        moved,
        moved_tick,
        predicted_translation,
        predicted_rotation,
    );
}

/// After one whole fixed step, a channel that is interpolated and not
/// extrapolated is eased from the value with which the step began, the
/// previous easing completed, to where the simulation has left it.
pub proof fn a_fixed_step_interpolates_across_the_step(
    entity: EasedEntity,
    ticks: FixedFirstTicks,
    moved: Transform,
    moved_tick: u32,
    predicted_translation: Option<Vec3>,
    predicted_rotation: Option<Quat>,
)
    ensures
        ({
            let after = after_fixed_step(
                entity,
                ticks,
                moved,
                moved_tick,
                predicted_translation,
                predicted_rotation,
            );
            let begun = transform_at_step_begin(entity, ticks);
            &&& interpolates_translation(entity) && !extrapolates_translation(entity)
                ==> after.translation_easing == Some(
                TranslationEasingState {
                    start: Some(begun.translation),
                    end: Some(moved.translation),
                },
            )
            &&& interpolates_rotation(entity) && !extrapolates_rotation(entity)
                ==> after.rotation_easing == Some(
                RotationEasingState { start: Some(begun.rotation), end: Some(moved.rotation) },
            )
            &&& interpolates_scale(entity) ==> after.scale_easing == Some(
                ScaleEasingState { start: Some(begun.scale), end: Some(moved.scale) },
            )
        }),
{
    fixed_step_by_channel(
        entity,
        ticks,
        moved,
        moved_tick,
        predicted_translation,
        predicted_rotation,
    );
}

/// After one whole fixed step, a channel that is extrapolated and for which
/// the host has predicted a value is eased from where the simulation has
/// left it to the predicted value.
pub proof fn a_fixed_step_extrapolates_beyond_the_step(
    entity: EasedEntity,
    ticks: FixedFirstTicks,
    moved: Transform,
    moved_tick: u32,
    predicted_translation: Option<Vec3>,
    predicted_rotation: Option<Quat>,
)
    ensures
        ({
            let after = after_fixed_step(
                entity,
                ticks,
                moved,
                moved_tick,
                predicted_translation,
                predicted_rotation,
            );
            &&& extrapolates_translation(entity) && predicted_translation is Some
                ==> after.translation_easing == Some(
                TranslationEasingState {
                    start: Some(moved.translation),
                    end: predicted_translation,
                },
            )
            &&& extrapolates_rotation(entity) && predicted_rotation is Some
                ==> after.rotation_easing == Some(
                RotationEasingState { start: Some(moved.rotation), end: predicted_rotation },
            )
        }),
{
    fixed_step_by_channel(
        entity,
        ticks,
        moved,
        moved_tick,
        predicted_translation,
        predicted_rotation,
    );
}

/// No value that was blended only in part is handed to the simulation. A
/// channel whose easing holds an end, whoever has filled it, is on display
/// at that end when the step begins, unless it is extrapolated; a channel
/// that is extrapolated and holds a start is on display at that start.
pub proof fn a_fixed_step_begins_where_the_easing_ended(
    entity: EasedEntity,
    ticks: FixedFirstTicks,
)
    ensures
        entity.translation_easing is Some && entity.translation_easing->Some_0.end is Some
            && !extrapolates_translation(entity) ==> transform_at_step_begin(
            entity,
            ticks,
        ).translation == entity.translation_easing->Some_0.end->Some_0,
        entity.rotation_easing is Some && entity.rotation_easing->Some_0.end is Some
            && !extrapolates_rotation(entity) ==> transform_at_step_begin(entity, ticks).rotation
            == entity.rotation_easing->Some_0.end->Some_0,
        entity.scale_easing is Some && entity.scale_easing->Some_0.end is Some
            ==> transform_at_step_begin(entity, ticks).scale
            == entity.scale_easing->Some_0.end->Some_0,
        extrapolates_translation(entity) && entity.translation_easing->Some_0.start is Some
            ==> transform_at_step_begin(entity, ticks).translation
            == entity.translation_easing->Some_0.start->Some_0,
        extrapolates_rotation(entity) && entity.rotation_easing->Some_0.start is Some
            ==> transform_at_step_begin(entity, ticks).rotation
            == entity.rotation_easing->Some_0.start->Some_0,
{
    completing_writes_the_transform_only(entity, ticks);
    let a = translation_easing_completed(entity, ticks.complete_translation);
    let b = rotation_easing_completed(a, ticks.complete_rotation);
    let c = scale_easing_completed(b, ticks.complete_scale);
    let d = translation_extrapolation_undone(c, ticks.undo_translation);
    let e = rotation_extrapolation_undone(d, ticks.undo_rotation);
    assert(a.markers == entity.markers && a.translation_easing == entity.translation_easing
        && a.rotation_easing == entity.rotation_easing && a.scale_easing == entity.scale_easing);
    assert(b.markers == entity.markers && b.translation_easing == entity.translation_easing
        && b.rotation_easing == entity.rotation_easing && b.scale_easing == entity.scale_easing);
    assert(c.markers == entity.markers && c.translation_easing == entity.translation_easing
        && c.rotation_easing == entity.rotation_easing && c.scale_easing == entity.scale_easing);
    assert(d.markers == entity.markers && d.translation_easing == entity.translation_easing
        && d.rotation_easing == entity.rotation_easing && d.scale_easing == entity.scale_easing);
    assert(b.transform.translation == a.transform.translation);
    assert(c.transform.translation == a.transform.translation);
    assert(e.transform.translation == d.transform.translation);
    assert(c.transform.rotation == b.transform.rotation);
    assert(d.transform.rotation == b.transform.rotation);
    assert(e.transform.scale == c.transform.scale);
    assert(e == after_completing(entity, ticks));
}

} // verus!
