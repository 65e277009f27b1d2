use bevy_transform_interpolation::easing::{
    ease_rotation_slerp, ease_translation_lerp, reset_rotation_easing, reset_translation_easing,
};
use bevy_transform_interpolation::entity::EasedEntity;
use bevy_transform_interpolation::extrapolation::{
    read_rotation_to_extrapolate, read_translation_to_extrapolate, reset_rotation_extrapolation,
    reset_translation_extrapolation, rotation_to_extrapolate, translation_to_extrapolate,
    update_rotation_extrapolation_states, update_translation_extrapolation_states,
    TransformExtrapolation, TransformExtrapolationPlugin,
};
use bevy_transform_interpolation::math::{Quat, Transform, Vec3};
use bevy_transform_interpolation::schedule::RequiredComponents;
use bevy_transform_interpolation::velocity::VelocitySource;

struct LinearVelocity(Vec3);

struct AngularVelocity(Vec3);

struct LinVelSource;

impl VelocitySource for LinVelSource {
    type Previous = LinearVelocity;
    type Current = LinearVelocity;

    fn previous_reading(start: &LinearVelocity) -> Vec3 {
        start.0
    }

    fn current_reading(end: &LinearVelocity) -> Vec3 {
        end.0
    }

    fn previous(start: &LinearVelocity) -> Vec3 {
        start.0
    }

    fn current(end: &LinearVelocity) -> Vec3 {
        end.0
    }
}

struct AngVelSource;

impl VelocitySource for AngVelSource {
    type Previous = AngularVelocity;
    type Current = AngularVelocity;

    fn previous_reading(start: &AngularVelocity) -> Vec3 {
        start.0
    }

    fn current_reading(end: &AngularVelocity) -> Vec3 {
        end.0
    }

    fn previous(start: &AngularVelocity) -> Vec3 {
        start.0
    }

    fn current(end: &AngularVelocity) -> Vec3 {
        end.0
    }
}

fn v(x: f32, y: f32, z: f32) -> Vec3 {
    Vec3::from_bits(x.to_bits(), y.to_bits(), z.to_bits())
}

fn glam(v: Vec3) -> bevy::math::Vec3 {
    bevy::math::Vec3::new(f32::from_bits(v.x), f32::from_bits(v.y), f32::from_bits(v.z))
}

fn ours(v: bevy::math::Vec3) -> Vec3 {
    Vec3::from_bits(v.x.to_bits(), v.y.to_bits(), v.z.to_bits())
}

fn glam_quat(q: Quat) -> bevy::math::Quat {
    bevy::math::Quat::from_xyzw(
        f32::from_bits(q.x),
        f32::from_bits(q.y),
        f32::from_bits(q.z),
        f32::from_bits(q.w),
    )
}

fn our_quat(q: bevy::math::Quat) -> Quat {
    Quat::from_bits(q.x.to_bits(), q.y.to_bits(), q.z.to_bits(), q.w.to_bits())
}

fn bits(v: Vec3) -> (u32, u32, u32) {
    (v.x, v.y, v.z)
}

fn qbits(q: Quat) -> (u32, u32, u32, u32) {
    (q.x, q.y, q.z, q.w)
}

fn extrapolated() -> EasedEntity {
    let mut entity = EasedEntity::new(Transform::identity(), 0);
    entity.insert(TransformExtrapolation, &RequiredComponents::default());
    entity
}

/// Runs the passes of the end of a fixed step on one entity, the way a host
/// does it: the library decides, the host advances by the velocity.
fn fixed_last(
    entity: &mut EasedEntity,
    lin_vel: Option<&LinearVelocity>,
    ang_vel: Option<&AngularVelocity>,
    delta_secs: f32,
) {
    if let Some((translation, velocity)) =
        read_translation_to_extrapolate::<LinVelSource>(entity, lin_vel)
    {
        let predicted = glam(translation) + glam(velocity) * delta_secs;
        update_translation_extrapolation_states(entity, ours(predicted));
    }
    if let Some((rotation, velocity)) = read_rotation_to_extrapolate::<AngVelSource>(entity, ang_vel)
    {
        let scaled_axis = glam(velocity) * delta_secs;
        let predicted = glam_quat(rotation) * bevy::math::Quat::from_scaled_axis(scaled_axis);
        update_rotation_extrapolation_states(entity, our_quat(predicted));
    }
}

/// Runs the passes of the start of a fixed step on one entity.
fn fixed_first(entity: &mut EasedEntity, tick: u32) {
    reset_translation_extrapolation(entity, tick);
    reset_rotation_extrapolation(entity, tick);
    reset_translation_easing(entity, tick);
    reset_rotation_easing(entity, tick);
}

#[test]
fn a_wrong_prediction_is_corrected_at_the_next_step() {
    // The entity stands at the origin and moves at 10 units per second; a
    // step lasts one second.
    let mut entity = extrapolated();
    let velocity = LinearVelocity(v(10.0, 0.0, 0.0));
    fixed_last(&mut entity, Some(&velocity), None, 1.0);
    let state = entity.translation_easing.unwrap();
    assert_eq!(bits(state.start.unwrap()), bits(v(0.0, 0.0, 0.0)));
    assert_eq!(bits(state.end.unwrap()), bits(v(10.0, 0.0, 0.0)));
    // The transform itself has not moved.
    assert_eq!(bits(entity.transform.translation), bits(v(0.0, 0.0, 0.0)));

    // Frames show the predicted motion.
    let (start, end) = ease_translation_lerp(&entity).unwrap();
    entity.set_translation(ours(glam(start).lerp(glam(end), 0.75)), 5);
    assert!(entity.transform.translation == v(7.5, 0.0, 0.0));

    // The next step begins: the displayed transform is put back to the start
    // of the prediction before the easing is reset.
    fixed_first(&mut entity, 6);
    assert_eq!(bits(entity.transform.translation), bits(v(0.0, 0.0, 0.0)));
    assert_eq!(entity.transform_changed, 6);
    let state = entity.translation_easing.unwrap();
    assert!(state.start.is_none() && state.end.is_none());

    // The simulation then moves the entity somewhere else, and the new start
    // is taken from there.
    entity.set_translation(v(4.0, 0.0, 0.0), 7);
    fixed_last(&mut entity, Some(&velocity), None, 1.0);
    let state = entity.translation_easing.unwrap();
    assert_eq!(bits(state.start.unwrap()), bits(v(4.0, 0.0, 0.0)));
    assert_eq!(bits(state.end.unwrap()), bits(v(14.0, 0.0, 0.0)));
}

#[test]
fn rotation_is_predicted_from_the_angular_velocity() {
    let mut entity = extrapolated();
    let spin = AngularVelocity(v(0.0, 0.0, std::f32::consts::FRAC_PI_2));
    fixed_last(&mut entity, None, Some(&spin), 1.0);
    let (start, end) = ease_rotation_slerp(&entity).unwrap();
    assert_eq!(qbits(start), qbits(Quat::identity()));
    let expected = bevy::math::Quat::from_rotation_z(std::f32::consts::FRAC_PI_2);
    assert!(glam_quat(end).abs_diff_eq(expected, 1.0e-6));
    // The translation has no velocity and stays without snapshots.
    let state = entity.translation_easing.unwrap();
    assert!(state.start.is_none() && state.end.is_none());

    entity.set_rotation(our_quat(glam_quat(start).slerp(glam_quat(end), 0.5)), 3);
    fixed_first(&mut entity, 4);
    assert_eq!(qbits(entity.transform.rotation), qbits(Quat::identity()));
}

#[test]
fn an_entity_without_velocity_is_not_extrapolated() {
    let mut entity = extrapolated();
    fixed_last(&mut entity, None, None, 1.0);
    let state = entity.translation_easing.unwrap();
    assert!(state.start.is_none() && state.end.is_none());
    let state = entity.rotation_easing.unwrap();
    assert!(state.start.is_none() && state.end.is_none());
    assert!(ease_translation_lerp(&entity).is_none());
    assert!(translation_to_extrapolate(&entity, None).is_none());
    assert!(rotation_to_extrapolate(&entity, None).is_none());
}

#[test]
fn the_basis_is_the_displayed_value_and_the_velocity() {
    let mut entity = extrapolated();
    entity.set_translation(v(1.0, 2.0, 3.0), 1);
    let (translation, velocity) =
        translation_to_extrapolate(&entity, Some(v(4.0, 5.0, 6.0))).unwrap();
    assert_eq!(bits(translation), bits(v(1.0, 2.0, 3.0)));
    assert_eq!(bits(velocity), bits(v(4.0, 5.0, 6.0)));
    let (rotation, velocity) = rotation_to_extrapolate(&entity, Some(v(0.0, 0.0, 1.0))).unwrap();
    assert_eq!(qbits(rotation), qbits(Quat::identity()));
    assert_eq!(bits(velocity), bits(v(0.0, 0.0, 1.0)));
    let read = read_translation_to_extrapolate::<LinVelSource>(
        &entity,
        Some(&LinearVelocity(v(4.0, 5.0, 6.0))),
    )
    .unwrap();
    assert_eq!(bits(read.0), bits(v(1.0, 2.0, 3.0)));
    assert_eq!(bits(read.1), bits(v(4.0, 5.0, 6.0)));
}

#[test]
fn an_entity_without_the_marker_is_not_extrapolated() {
    let mut entity = EasedEntity::new(Transform::identity(), 0);
    entity.translation_easing = Some(Default::default());
    entity.rotation_easing = Some(Default::default());
    assert!(translation_to_extrapolate(&entity, Some(v(1.0, 0.0, 0.0))).is_none());
    assert!(rotation_to_extrapolate(&entity, Some(v(1.0, 0.0, 0.0))).is_none());
    update_translation_extrapolation_states(&mut entity, v(9.0, 9.0, 9.0));
    update_rotation_extrapolation_states(&mut entity, Quat::from_bits(1, 2, 3, 4));
    assert!(entity.translation_easing.unwrap().end.is_none());
    assert!(entity.rotation_easing.unwrap().end.is_none());
    entity.translation_easing.as_mut().unwrap().start = Some(v(5.0, 5.0, 5.0));
    reset_translation_extrapolation(&mut entity, 3);
    assert_eq!(bits(entity.transform.translation), bits(Vec3::zero()));
    assert_eq!(entity.transform_changed, 0);
}

#[test]
fn an_entity_that_opts_out_is_not_extrapolated() {
    let mut entity = extrapolated();
    entity.markers.no_translation_easing = true;
    entity.markers.no_rotation_easing = true;
    let velocity = LinearVelocity(v(10.0, 0.0, 0.0));
    let spin = AngularVelocity(v(0.0, 0.0, 1.0));
    fixed_last(&mut entity, Some(&velocity), Some(&spin), 1.0);
    assert!(entity.translation_easing.unwrap().start.is_none());
    assert!(entity.rotation_easing.unwrap().start.is_none());
    update_translation_extrapolation_states(&mut entity, v(9.0, 9.0, 9.0));
    assert!(entity.translation_easing.unwrap().end.is_none());
}

#[test]
fn resetting_without_a_start_changes_nothing() {
    let mut entity = extrapolated();
    entity.set_translation(v(3.0, 0.0, 0.0), 2);
    reset_translation_extrapolation(&mut entity, 9);
    reset_rotation_extrapolation(&mut entity, 9);
    assert_eq!(bits(entity.transform.translation), bits(v(3.0, 0.0, 0.0)));
    assert_eq!(entity.transform_changed, 2);
}

#[test]
fn the_source_without_velocity_reads_zero() {
    // No attribute of this source can be built, so no entity has one: a
    // channel that uses it is never extrapolated.
    let entity = extrapolated();
    assert!(read_translation_to_extrapolate::<()>(&entity, None).is_none());
    assert!(read_rotation_to_extrapolate::<()>(&entity, None).is_none());
}

#[test]
fn extrapolation_plugin_settings() {
    let plugin = TransformExtrapolationPlugin::<LinVelSource, AngVelSource>::default();
    assert!(!plugin.extrapolate_translation_all);
    assert!(!plugin.extrapolate_rotation_all);
    let plugin = TransformExtrapolationPlugin::<LinVelSource, AngVelSource>::extrapolate_all();
    assert!(plugin.extrapolate_translation_all);
    assert!(plugin.extrapolate_rotation_all);
}
