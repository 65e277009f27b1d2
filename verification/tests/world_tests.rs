use bevy_transform_interpolation::commands::ResetEasing;
use bevy_transform_interpolation::easing::ease_translation_lerp;
use bevy_transform_interpolation::entity::EasedEntity;
use bevy_transform_interpolation::interpolation::{
    TransformInterpolation, TransformInterpolationPlugin,
};
use bevy_transform_interpolation::math::{Transform, Vec3};
use bevy_transform_interpolation::schedule::{App, RequiredComponents, ScheduleLabel, System};
use bevy_transform_interpolation::state::{ScaleEasingState, TranslationEasingState};
use bevy_transform_interpolation::tick::SystemChangeTick;
use bevy_transform_interpolation::world::{run_on_entity, Entity, World};

fn v(x: f32, y: f32, z: f32) -> Vec3 {
    Vec3::from_bits(x.to_bits(), y.to_bits(), z.to_bits())
}

fn glam(v: Vec3) -> bevy::math::Vec3 {
    bevy::math::Vec3::new(f32::from_bits(v.x), f32::from_bits(v.y), f32::from_bits(v.z))
}

fn ours(v: bevy::math::Vec3) -> Vec3 {
    Vec3::from_bits(v.x.to_bits(), v.y.to_bits(), v.z.to_bits())
}

fn bits(v: Vec3) -> (u32, u32, u32) {
    (v.x, v.y, v.z)
}

fn ready(x: f32) -> EasedEntity {
    let mut entity = EasedEntity::new(Transform::identity(), 0);
    entity.insert(TransformInterpolation, &RequiredComponents::default());
    entity.translation_easing =
        Some(TranslationEasingState { start: Some(v(0.0, 0.0, 0.0)), end: Some(v(x, 0.0, 0.0)) });
    entity
}

/// A small host: it runs the passes of a schedule in their order, over all
/// entities, and does the blending that the library leaves to it.
struct Host {
    app: App,
    world: World,
    tick: u32,
    last_runs: Vec<(System, u32)>,
}

impl Host {
    fn new(app: App) -> Host {
        Host { app, world: World::new(), tick: 1, last_runs: Vec::new() }
    }

    fn ticks_for(&mut self, system: System) -> SystemChangeTick {
        let this_run = self.tick;
        self.tick += 1;
        let last_run = match self.last_runs.iter_mut().find(|(s, _)| *s == system) {
            Some(entry) => std::mem::replace(&mut entry.1, this_run),
            None => {
                self.last_runs.push((system, this_run));
                0
            }
        };
        SystemChangeTick::new(last_run, this_run)
    }

    fn run(&mut self, schedule: ScheduleLabel, overstep: f32) {
        for placement in self.app.run_order(schedule) {
            let ticks = self.ticks_for(placement.system);
            if self.world.run_system(placement.system, ticks) {
                continue;
            }
            if placement.system == System::EaseTranslationLerp {
                for index in 0..self.world.entities.len() {
                    let name = Entity { index };
                    let Some(mut entity) = self.world.get(name) else { continue };
                    if let Some((start, end)) = ease_translation_lerp(&entity) {
                        let blended = glam(start).lerp(glam(end), overstep);
                        entity.set_translation(ours(blended), ticks.this_run());
                        self.world.set(name, entity);
                    }
                }
            }
        }
    }

    fn step(&mut self, moves: &[(Entity, Vec3)]) {
        self.run(ScheduleLabel::FixedFirst, 0.0);
        for (name, target) in moves {
            let mut entity = self.world.get(*name).unwrap();
            entity.set_translation(*target, self.tick);
            self.tick += 1;
            self.world.set(*name, entity);
        }
        self.run(ScheduleLabel::FixedLast, 0.0);
    }

    fn frame(&mut self, overstep: f32) {
        self.run(ScheduleLabel::RunFixedMainLoop, overstep);
    }

    fn translation(&self, name: Entity) -> Vec3 {
        self.world.get(name).unwrap().transform.translation
    }
}

fn interpolating_host() -> (Host, Entity) {
    let mut app = App::new();
    let plugin = TransformInterpolationPlugin::interpolate_all();
    plugin.build(&mut app);
    plugin.finish(&mut app);
    let required = app.required;
    let mut host = Host::new(app);
    let name = host.world.spawn(EasedEntity::spawn(Transform::identity(), 0, &required));
    (host, name)
}

#[test]
fn spawned_entities_are_found_by_name() {
    let mut world = World::new();
    assert!(world.get(Entity { index: 0 }).is_none());
    let a = world.spawn(ready(1.0));
    let b = world.spawn(ready(2.0));
    assert_eq!(a, Entity { index: 0 });
    assert_eq!(b, Entity { index: 1 });
    let found = world.get(b).unwrap();
    assert_eq!(bits(found.translation_easing.unwrap().end.unwrap()), bits(v(2.0, 0.0, 0.0)));
    assert!(world.get(Entity { index: 2 }).is_none());
}

#[test]
fn a_despawned_entity_is_gone_and_the_others_keep_their_names() {
    let mut world = World::new();
    let a = world.spawn(ready(1.0));
    let b = world.spawn(ready(2.0));
    let removed = world.despawn(a).unwrap();
    assert_eq!(bits(removed.translation_easing.unwrap().end.unwrap()), bits(v(1.0, 0.0, 0.0)));
    assert!(world.get(a).is_none());
    assert!(world.despawn(a).is_none());
    assert!(world.despawn(Entity { index: 9 }).is_none());
    assert!(world.get(b).is_some());
    assert!(!world.set(a, ready(3.0)));
    assert!(!world.set(Entity { index: 9 }, ready(3.0)));
    assert!(world.set(b, ready(3.0)));
    assert_eq!(
        bits(world.get(b).unwrap().translation_easing.unwrap().end.unwrap()),
        bits(v(3.0, 0.0, 0.0))
    );
    let c = world.spawn(ready(4.0));
    assert_eq!(c.index, 2);
}

#[test]
fn reset_easing_clears_the_states_of_one_entity() {
    let mut world = World::new();
    let a = world.spawn(ready(1.0));
    let b = world.spawn(ready(2.0));
    ResetEasing(a).apply(&mut world);
    let cleared = world.get(a).unwrap();
    let state = cleared.translation_easing.unwrap();
    assert!(state.start.is_none() && state.end.is_none());
    assert!(cleared.rotation_easing.is_some());
    assert!(cleared.markers.translation_interpolation);
    assert!(ease_translation_lerp(&cleared).is_none());
    // The other entity goes on easing.
    assert!(ease_translation_lerp(&world.get(b).unwrap()).is_some());
}

#[test]
fn reset_easing_of_an_unknown_entity_changes_nothing() {
    let mut world = World::new();
    let a = world.spawn(ready(1.0));
    ResetEasing(Entity { index: 5 }).apply(&mut world);
    assert!(ease_translation_lerp(&world.get(a).unwrap()).is_some());
    world.despawn(a);
    ResetEasing(a).apply(&mut world);
    assert!(world.get(a).is_none());
    assert_eq!(world.entities.len(), 1);
}

#[test]
fn reset_easing_lets_a_transform_be_set_without_easing() {
    let (mut host, name) = interpolating_host();
    host.step(&[(name, v(50.0, 0.0, 0.0))]);
    host.frame(0.5);
    assert!(host.translation(name) == v(25.0, 0.0, 0.0));
    ResetEasing(name).apply(&mut host.world);
    let mut entity = host.world.get(name).unwrap();
    entity.set_translation(v(50.0, 0.0, 0.0), host.tick);
    host.world.set(name, entity);
    host.frame(0.75);
    assert_eq!(bits(host.translation(name)), bits(v(50.0, 0.0, 0.0)));
}

#[test]
fn a_pass_runs_over_every_entity() {
    let mut world = World::new();
    let a = world.spawn(ready(1.0));
    let b = world.spawn(EasedEntity::new(Transform::identity(), 0));
    let c = world.spawn(ready(3.0));
    world.despawn(b);
    assert!(world.run_system(System::ResetTranslationEasing, SystemChangeTick::new(0, 1)));
    for (name, end) in [(a, 1.0), (c, 3.0)] {
        let entity = world.get(name).unwrap();
        let state = entity.translation_easing.unwrap();
        assert!(state.start.is_none() && state.end.is_none());
        assert_eq!(bits(entity.transform.translation), bits(v(end, 0.0, 0.0)));
        assert_eq!(entity.transform_changed, 1);
    }
    assert!(world.get(b).is_none());
    assert_eq!(world.entities.len(), 3);
}

#[test]
fn passes_that_need_the_host_are_not_run() {
    let mut world = World::new();
    let a = world.spawn(ready(1.0));
    for system in [
        System::EaseTranslationLerp,
        System::EaseRotationSlerp,
        System::EaseScaleLerp,
        System::EaseTranslationHermite,
        System::EaseRotationHermite,
        System::UpdateTranslationExtrapolationStates,
        System::UpdateRotationExtrapolationStates,
    ] {
        assert!(!world.run_system(system, SystemChangeTick::new(0, 1)));
    }
    assert!(ease_translation_lerp(&world.get(a).unwrap()).is_some());
    assert_eq!(world.last_easing_tick.tick, 0);
}

#[test]
fn the_tick_of_the_easing_is_recorded_in_the_store() {
    let mut world = World::new();
    world.spawn(ready(1.0));
    assert!(world.run_system(System::UpdateLastEasingTick, SystemChangeTick::new(3, 8)));
    assert_eq!(world.last_easing_tick.tick, 8);
}

#[test]
fn each_pass_name_runs_its_pass() {
    let ticks = SystemChangeTick::new(0, 7);
    let last = Default::default();
    let mut entity = ready(5.0);
    entity.scale_easing =
        Some(ScaleEasingState { start: Some(Vec3::one()), end: Some(v(2.0, 2.0, 2.0)) });

    let mut e = entity;
    run_on_entity(System::CompleteTranslationEasing, &mut e, last, ticks);
    assert_eq!(bits(e.transform.translation), bits(v(5.0, 0.0, 0.0)));
    assert_eq!(e.transform_changed, 7);

    let mut e = entity;
    run_on_entity(System::CompleteScaleEasing, &mut e, last, ticks);
    assert_eq!(bits(e.transform.scale), bits(v(2.0, 2.0, 2.0)));

    let mut e = entity;
    run_on_entity(System::ResetScaleEasing, &mut e, last, ticks);
    assert!(e.scale_easing.unwrap().start.is_none());
    assert!(e.translation_easing.unwrap().start.is_some());
    assert_eq!(bits(e.transform.scale), bits(v(2.0, 2.0, 2.0)));
    assert_eq!(e.transform_changed, 7);

    let mut e = entity;
    run_on_entity(System::ResetTranslationEasing, &mut e, last, ticks);
    assert!(e.translation_easing.unwrap().end.is_none());
    assert_eq!(bits(e.transform.translation), bits(v(5.0, 0.0, 0.0)));

    let mut e = entity;
    run_on_entity(System::ResetRotationEasing, &mut e, last, ticks);
    assert!(e.translation_easing.unwrap().start.is_some());

    let mut e = entity;
    e.set_translation(v(9.0, 0.0, 0.0), 1);
    run_on_entity(System::UpdateTranslationInterpolationStart, &mut e, last, ticks);
    assert_eq!(bits(e.translation_easing.unwrap().start.unwrap()), bits(v(9.0, 0.0, 0.0)));
    assert_eq!(bits(e.translation_easing.unwrap().end.unwrap()), bits(v(5.0, 0.0, 0.0)));

    let mut e = entity;
    e.set_translation(v(9.0, 0.0, 0.0), 1);
    run_on_entity(System::UpdateTranslationInterpolationEnd, &mut e, last, ticks);
    assert_eq!(bits(e.translation_easing.unwrap().end.unwrap()), bits(v(9.0, 0.0, 0.0)));

    let mut e = entity;
    e.set_scale(v(3.0, 3.0, 3.0), 1);
    run_on_entity(System::UpdateScaleInterpolationStart, &mut e, last, ticks);
    assert_eq!(bits(e.scale_easing.unwrap().start.unwrap()), bits(v(3.0, 3.0, 3.0)));
    run_on_entity(System::UpdateScaleInterpolationEnd, &mut e, last, ticks);
    assert_eq!(bits(e.scale_easing.unwrap().end.unwrap()), bits(v(3.0, 3.0, 3.0)));

    let mut e = entity;
    e.set_translation(v(9.0, 0.0, 0.0), 3);
    run_on_entity(System::ResetEasingStatesOnTransformChange, &mut e, last, ticks);
    assert!(e.translation_easing.unwrap().start.is_none());
    assert!(e.scale_easing.unwrap().start.is_some());

    let mut e = entity;
    e.markers.translation_extrapolation = true;
    e.set_translation(v(9.0, 0.0, 0.0), 3);
    run_on_entity(System::ResetTranslationExtrapolation, &mut e, last, ticks);
    assert_eq!(bits(e.transform.translation), bits(v(0.0, 0.0, 0.0)));

    let mut e = entity;
    run_on_entity(System::EaseTranslationLerp, &mut e, last, ticks);
    run_on_entity(System::UpdateLastEasingTick, &mut e, last, ticks);
    assert_eq!(bits(e.transform.translation), bits(entity.transform.translation));
    assert_eq!(e.transform_changed, entity.transform_changed);
}

#[test]
fn a_host_eases_between_fixed_steps() {
    let (mut host, name) = interpolating_host();
    host.step(&[(name, v(50.0, 0.0, 0.0))]);
    host.frame(0.0);
    assert!(host.translation(name) == v(0.0, 0.0, 0.0));
    host.frame(0.5);
    assert!(host.translation(name) == v(25.0, 0.0, 0.0));
    host.frame(0.9);
    assert!(host.translation(name) == v(45.0, 0.0, 0.0));
    // Two frames may fall between the same two steps, and a frame may come
    // with an overstep that is lower than that of the one before it.
    host.frame(0.1);
    assert!(host.translation(name) == v(5.0, 0.0, 0.0));
    host.step(&[(name, v(60.0, 0.0, 0.0))]);
    host.frame(0.5);
    assert!(host.translation(name) == v(55.0, 0.0, 0.0));
}

#[test]
fn a_host_keeps_a_teleport_between_fixed_steps() {
    let (mut host, name) = interpolating_host();
    host.step(&[(name, v(50.0, 0.0, 0.0))]);
    host.frame(0.25);
    assert!(host.translation(name) == v(12.5, 0.0, 0.0));

    // Outside the fixed step, a user moves the entity somewhere else.
    let mut entity = host.world.get(name).unwrap();
    entity.set_translation(v(-100.0, 5.0, 0.0), host.tick);
    host.tick += 1;
    host.world.set(name, entity);

    host.frame(0.5);
    assert_eq!(bits(host.translation(name)), bits(v(-100.0, 5.0, 0.0)));
    let state = host.world.get(name).unwrap().translation_easing.unwrap();
    assert!(state.start.is_none() && state.end.is_none());
    host.frame(0.75);
    assert_eq!(bits(host.translation(name)), bits(v(-100.0, 5.0, 0.0)));

    // The next step eases again, from where the entity was put.
    host.step(&[(name, v(-90.0, 5.0, 0.0))]);
    host.frame(0.5);
    assert!(host.translation(name) == v(-95.0, 5.0, 0.0));
}

#[test]
fn a_host_does_not_take_its_own_blend_for_a_teleport() {
    let (mut host, name) = interpolating_host();
    host.step(&[(name, v(50.0, 0.0, 0.0))]);
    for (overstep, expected) in [(0.1, 5.0), (0.2, 10.0), (0.5, 25.0), (1.0, 50.0)] {
        host.frame(overstep);
        assert!(host.translation(name) == v(expected, 0.0, 0.0));
        assert!(ease_translation_lerp(&host.world.get(name).unwrap()).is_some());
    }
}

#[test]
fn a_host_does_not_ease_an_entity_that_was_not_moved_in_a_step() {
    let (mut host, name) = interpolating_host();
    host.frame(0.5);
    assert_eq!(bits(host.translation(name)), bits(Vec3::zero()));
    host.step(&[]);
    host.frame(0.5);
    assert!(host.translation(name) == Vec3::zero());
}
