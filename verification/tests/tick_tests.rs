use bevy::ecs::component::Tick;
use bevy_transform_interpolation::easing::reset_easing_states_on_transform_change;
use bevy_transform_interpolation::entity::EasedEntity;
use bevy_transform_interpolation::math::{Transform, Vec3};
use bevy_transform_interpolation::state::TranslationEasingState;
use bevy_transform_interpolation::tick::{
    update_last_easing_tick, LastEasingTick, SystemChangeTick, MAX_CHANGE_AGE,
};

fn v(x: f32, y: f32, z: f32) -> Vec3 {
    Vec3::from_bits(x.to_bits(), y.to_bits(), z.to_bits())
}

/// An entity whose translation is ready to be eased from 0 to 10 and is
/// displayed at 3, which is neither end, written at `changed`.
fn teleported(changed: u32) -> EasedEntity {
    let mut entity = EasedEntity::new(Transform::from_translation(v(3.0, 0.0, 0.0)), changed);
    entity.translation_easing = Some(TranslationEasingState {
        start: Some(v(0.0, 0.0, 0.0)),
        end: Some(v(10.0, 0.0, 0.0)),
    });
    entity
}

/// Tells whether the teleport check takes a write at `changed` for a write
/// from outside.
fn is_reset(changed: u32, last_easing: u32, last_run: u32, this_run: u32) -> bool {
    let mut entity = teleported(changed);
    reset_easing_states_on_transform_change(
        &mut entity,
        LastEasingTick { tick: last_easing },
        SystemChangeTick::new(last_run, this_run),
    );
    let state = entity.translation_easing.unwrap();
    state.start.is_none() && state.end.is_none()
}

#[test]
fn max_change_age_is_that_of_the_host() {
    assert_eq!(MAX_CHANGE_AGE, bevy::ecs::change_detection::MAX_CHANGE_AGE);
    assert_eq!(MAX_CHANGE_AGE, u32::MAX - (2 * 518_400_000 - 1));
}

#[test]
fn a_write_after_the_last_easing_is_a_teleport() {
    assert!(is_reset(5, 3, 1, 10));
}

#[test]
fn a_write_before_the_last_easing_is_no_teleport() {
    assert!(!is_reset(2, 3, 1, 10));
}

#[test]
fn a_write_at_the_last_easing_is_no_teleport() {
    assert!(!is_reset(3, 3, 1, 10));
}

#[test]
fn the_last_run_of_the_check_plays_no_part() {
    // Only the tick of the last easing decides.
    for last_run in [0, 1, 4, 7, 9] {
        assert!(is_reset(5, 3, last_run, 10));
        assert!(!is_reset(2, 3, last_run, 10));
    }
}

#[test]
fn ticks_wrap_around() {
    // The counter has wrapped between the last easing and this run.
    assert!(is_reset(0, u32::MAX - 1, u32::MAX - 2, 2));
    assert!(!is_reset(u32::MAX - 3, u32::MAX - 1, u32::MAX - 5, 2));
}

#[test]
fn ages_are_clamped() {
    // Both the write and the last easing are older than the largest age:
    // they can no longer be told apart.
    let this_run = MAX_CHANGE_AGE + 10;
    assert!(!is_reset(5, 0, 0, this_run));
    // The last easing is older than the largest age, the write is not.
    assert!(is_reset(20, 0, 0, this_run));
}

#[test]
fn teleport_check_agrees_with_the_host_on_many_ticks() {
    let ticks = [
        0u32,
        1,
        2,
        3,
        10,
        1000,
        MAX_CHANGE_AGE - 1,
        MAX_CHANGE_AGE,
        MAX_CHANGE_AGE + 1,
        u32::MAX / 2,
        u32::MAX - 1,
        u32::MAX,
    ];
    for &changed in &ticks {
        for &last_easing in &ticks {
            for &this_run in &ticks {
                let host = Tick::new(changed)
                    .is_newer_than(Tick::new(last_easing), Tick::new(this_run));
                assert_eq!(is_reset(changed, last_easing, last_easing, this_run), host);
            }
        }
    }
}

#[test]
fn last_easing_tick_starts_at_zero() {
    assert_eq!(LastEasingTick::default().tick, 0);
    assert_eq!(LastEasingTick::default().get(), 0);
}

#[test]
fn last_easing_tick_takes_the_tick_of_the_run() {
    let mut last = LastEasingTick::default();
    update_last_easing_tick(&mut last, SystemChangeTick::new(4, 9));
    assert_eq!(last.get(), 9);
    update_last_easing_tick(&mut last, SystemChangeTick::new(9, 2));
    assert_eq!(last.get(), 2);
}

#[test]
fn system_change_tick_keeps_both_ticks() {
    let ticks = SystemChangeTick::new(4, 9);
    assert_eq!(ticks.last_run(), 4);
    assert_eq!(ticks.this_run(), 9);
}
