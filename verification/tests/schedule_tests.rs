use bevy_transform_interpolation::extrapolation::TransformExtrapolationPlugin;
use bevy_transform_interpolation::hermite::TransformHermiteEasingPlugin;
use bevy_transform_interpolation::interpolation::TransformInterpolationPlugin;
use bevy_transform_interpolation::plugin::TransformEasingPlugin;
use bevy_transform_interpolation::schedule::{
    App, Position, RunFixedMainLoopSystem, ScheduleLabel, SetPlacement, System,
    TransformEasingSet, RANKS,
};

fn systems(app: &App, schedule: ScheduleLabel) -> Vec<System> {
    app.run_order(schedule).iter().map(|placement| placement.system).collect()
}

fn index_of(order: &[System], system: System) -> usize {
    order.iter().position(|s| *s == system).unwrap()
}

/// A plan with every plugin of the library.
fn full_app() -> App {
    let mut app = App::new();
    let interpolation = TransformInterpolationPlugin::default();
    let extrapolation = TransformExtrapolationPlugin::<(), ()>::default();
    let hermite = TransformHermiteEasingPlugin::<(), ()>::default();
    interpolation.build(&mut app);
    extrapolation.build(&mut app);
    hermite.build(&mut app);
    interpolation.finish(&mut app);
    extrapolation.finish(&mut app);
    app
}

#[test]
fn a_new_plan_is_empty() {
    let app = App::new();
    assert!(app.systems.is_empty());
    assert!(app.sets.is_empty());
    assert!(app.last_easing_tick.is_none());
    assert!(!app.plugins.transform_easing);
    assert!(!app.plugins.transform_interpolation);
    assert!(!app.plugins.transform_extrapolation);
    assert!(!app.plugins.transform_hermite_easing);
    assert!(app.run_order(ScheduleLabel::FixedFirst).is_empty());
}

#[test]
fn default_easing_plugin_uses_the_schedules_of_the_fixed_step() {
    let plugin = TransformEasingPlugin::default();
    assert_eq!(plugin.schedule_fixed_first, ScheduleLabel::FixedFirst);
    assert_eq!(plugin.schedule_fixed_last, ScheduleLabel::FixedLast);
    assert_eq!(plugin.schedule_fixed_loop, ScheduleLabel::RunFixedMainLoop);
    assert_eq!(plugin.after_fixed_main_loop, RunFixedMainLoopSystem::AfterFixedMainLoop);
    assert!(plugin.update_easing_values);
}

#[test]
fn easing_plugin_adds_its_passes_in_order() {
    let mut app = App::new();
    TransformEasingPlugin::default().build(&mut app);
    assert!(app.plugins.transform_easing);
    assert_eq!(app.last_easing_tick.unwrap().tick, 0);
    assert_eq!(
        systems(&app, ScheduleLabel::FixedFirst),
        vec![
            System::ResetTranslationEasing,
            System::ResetRotationEasing,
            System::ResetScaleEasing,
        ]
    );
    assert!(systems(&app, ScheduleLabel::FixedLast).is_empty());
    assert_eq!(
        systems(&app, ScheduleLabel::RunFixedMainLoop),
        vec![
            System::ResetEasingStatesOnTransformChange,
            System::EaseTranslationLerp,
            System::EaseRotationSlerp,
            System::EaseScaleLerp,
            System::UpdateLastEasingTick,
        ]
    );
    assert_eq!(
        app.sets,
        vec![
            SetPlacement {
                schedule: ScheduleLabel::FixedFirst,
                set: TransformEasingSet::Reset,
                within: None
            },
            SetPlacement {
                schedule: ScheduleLabel::FixedFirst,
                set: TransformEasingSet::UpdateStart,
                within: None
            },
            SetPlacement {
                schedule: ScheduleLabel::FixedLast,
                set: TransformEasingSet::UpdateEnd,
                within: None
            },
            SetPlacement {
                schedule: ScheduleLabel::RunFixedMainLoop,
                set: TransformEasingSet::Ease,
                within: Some(RunFixedMainLoopSystem::AfterFixedMainLoop)
            },
            SetPlacement {
                schedule: ScheduleLabel::RunFixedMainLoop,
                set: TransformEasingSet::UpdateEasingTick,
                within: Some(RunFixedMainLoopSystem::AfterFixedMainLoop)
            },
        ]
    );
}

#[test]
fn easing_plugin_can_leave_the_blends_to_others() {
    let mut app = App::new();
    let plugin = TransformEasingPlugin { update_easing_values: false, ..Default::default() };
    plugin.build(&mut app);
    assert_eq!(
        systems(&app, ScheduleLabel::RunFixedMainLoop),
        vec![System::ResetEasingStatesOnTransformChange, System::UpdateLastEasingTick]
    );
}

#[test]
fn easing_plugin_can_use_schedules_of_the_host() {
    let mut app = App::new();
    let plugin = TransformEasingPlugin {
        schedule_fixed_first: ScheduleLabel::Custom(1),
        schedule_fixed_last: ScheduleLabel::Custom(2),
        schedule_fixed_loop: ScheduleLabel::Custom(3),
        after_fixed_main_loop: RunFixedMainLoopSystem::Custom(4),
        update_easing_values: true,
    };
    plugin.build(&mut app);
    assert!(systems(&app, ScheduleLabel::FixedFirst).is_empty());
    assert!(systems(&app, ScheduleLabel::RunFixedMainLoop).is_empty());
    assert_eq!(systems(&app, ScheduleLabel::Custom(1)).len(), 3);
    assert!(systems(&app, ScheduleLabel::Custom(2)).is_empty());
    assert_eq!(systems(&app, ScheduleLabel::Custom(3)).len(), 5);
    assert_eq!(app.sets[3].within, Some(RunFixedMainLoopSystem::Custom(4)));
    assert_eq!(app.sets[2].schedule, ScheduleLabel::Custom(2));
}

#[test]
fn easing_plugin_keeps_an_existing_easing_tick() {
    let mut app = App::new();
    app.last_easing_tick =
        Some(bevy_transform_interpolation::tick::LastEasingTick { tick: 7 });
    TransformEasingPlugin::default().build(&mut app);
    assert_eq!(app.last_easing_tick.unwrap().tick, 7);
}

#[test]
fn interpolation_completes_before_the_reset_and_starts_after_it() {
    let mut app = App::new();
    // The easing plugin is added last, by `finish`; its passes still run in
    // their place.
    let plugin = TransformInterpolationPlugin::default();
    plugin.build(&mut app);
    assert!(!app.plugins.transform_easing);
    plugin.finish(&mut app);
    assert!(app.plugins.transform_easing);
    assert!(app.plugins.transform_interpolation);
    assert_eq!(
        systems(&app, ScheduleLabel::FixedFirst),
        vec![
            System::CompleteTranslationEasing,
            System::CompleteRotationEasing,
            System::CompleteScaleEasing,
            System::ResetTranslationEasing,
            System::ResetRotationEasing,
            System::ResetScaleEasing,
            System::UpdateTranslationInterpolationStart,
            System::UpdateRotationInterpolationStart,
            System::UpdateScaleInterpolationStart,
        ]
    );
    assert_eq!(
        systems(&app, ScheduleLabel::FixedLast),
        vec![
            System::UpdateTranslationInterpolationEnd,
            System::UpdateRotationInterpolationEnd,
            System::UpdateScaleInterpolationEnd,
        ]
    );
}

#[test]
fn finish_adds_the_easing_plugin_only_once() {
    let mut app = App::new();
    let interpolation = TransformInterpolationPlugin::default();
    let extrapolation = TransformExtrapolationPlugin::<(), ()>::default();
    interpolation.build(&mut app);
    extrapolation.build(&mut app);
    interpolation.finish(&mut app);
    let systems_after_first = app.systems.len();
    let sets_after_first = app.sets.len();
    extrapolation.finish(&mut app);
    interpolation.finish(&mut app);
    assert_eq!(app.systems.len(), systems_after_first);
    assert_eq!(app.sets.len(), sets_after_first);
    assert_eq!(app.systems.len(), 9 + 4 + 8);
}

#[test]
fn extrapolation_puts_the_transform_back_before_the_reset() {
    let mut app = App::new();
    let plugin = TransformExtrapolationPlugin::<(), ()>::default();
    plugin.build(&mut app);
    plugin.finish(&mut app);
    assert!(app.plugins.transform_extrapolation);
    assert_eq!(
        systems(&app, ScheduleLabel::FixedFirst),
        vec![
            System::ResetTranslationExtrapolation,
            System::ResetRotationExtrapolation,
            System::ResetTranslationEasing,
            System::ResetRotationEasing,
            System::ResetScaleEasing,
        ]
    );
    assert_eq!(
        systems(&app, ScheduleLabel::FixedLast),
        vec![
            System::UpdateTranslationExtrapolationStates,
            System::UpdateRotationExtrapolationStates,
        ]
    );
}

#[test]
fn hermite_eases_in_the_ease_set() {
    let mut app = App::new();
    TransformEasingPlugin::default().build(&mut app);
    TransformHermiteEasingPlugin::<(), ()>::default().build(&mut app);
    assert!(app.plugins.transform_hermite_easing);
    assert!(app.required.translation_hermite_is_nonlinear);
    assert!(app.required.rotation_hermite_is_nonlinear);
    assert_eq!(
        systems(&app, ScheduleLabel::RunFixedMainLoop),
        vec![
            System::ResetEasingStatesOnTransformChange,
            System::EaseTranslationLerp,
            System::EaseRotationSlerp,
            System::EaseScaleLerp,
            System::EaseTranslationHermite,
            System::EaseRotationHermite,
            System::UpdateLastEasingTick,
        ]
    );
}

#[test]
fn the_phases_run_in_their_order_whatever_the_order_of_the_plugins() {
    let app = full_app();
    let first = systems(&app, ScheduleLabel::FixedFirst);
    let frame = systems(&app, ScheduleLabel::RunFixedMainLoop);

    // Within a fixed step: completing and undoing, then the reset, then the
    // new start.
    for before in [
        System::CompleteTranslationEasing,
        System::CompleteRotationEasing,
        System::CompleteScaleEasing,
        System::ResetTranslationExtrapolation,
        System::ResetRotationExtrapolation,
    ] {
        for reset in [
            System::ResetTranslationEasing,
            System::ResetRotationEasing,
            System::ResetScaleEasing,
        ] {
            assert!(index_of(&first, before) < index_of(&first, reset));
            for start in [
                System::UpdateTranslationInterpolationStart,
                System::UpdateRotationInterpolationStart,
                System::UpdateScaleInterpolationStart,
            ] {
                assert!(index_of(&first, reset) < index_of(&first, start));
            }
        }
    }

    // Within a frame: the teleport check, then the blends, then the tick.
    let check = index_of(&frame, System::ResetEasingStatesOnTransformChange);
    let tick = index_of(&frame, System::UpdateLastEasingTick);
    for ease in [
        System::EaseTranslationLerp,
        System::EaseRotationSlerp,
        System::EaseScaleLerp,
        System::EaseTranslationHermite,
        System::EaseRotationHermite,
    ] {
        assert!(check < index_of(&frame, ease));
        assert!(index_of(&frame, ease) < tick);
    }
    assert_eq!(tick, frame.len() - 1);
}

#[test]
fn run_order_keeps_every_pass_of_the_schedule_and_no_other() {
    let app = full_app();
    let mut total = 0;
    for schedule in [
        ScheduleLabel::FixedFirst,
        ScheduleLabel::FixedLast,
        ScheduleLabel::RunFixedMainLoop,
        ScheduleLabel::Custom(0),
    ] {
        let order = app.run_order(schedule);
        let expected = app.systems.iter().filter(|p| p.schedule == schedule).count();
        assert_eq!(order.len(), expected);
        for placement in &order {
            assert_eq!(placement.schedule, schedule);
            assert!(app.systems.contains(placement));
        }
        for pair in order.windows(2) {
            assert!(pair[0].position.rank() <= pair[1].position.rank());
        }
        total += order.len();
    }
    assert_eq!(total, app.systems.len());
}

#[test]
fn passes_at_one_position_run_in_the_order_in_which_they_were_added() {
    let mut app = App::new();
    let ease = Position::In(TransformEasingSet::Ease);
    app.add_system(ScheduleLabel::FixedLast, ease, System::EaseScaleLerp);
    app.add_system(
        ScheduleLabel::FixedLast,
        Position::Before(TransformEasingSet::Ease),
        System::ResetEasingStatesOnTransformChange,
    );
    app.add_system(ScheduleLabel::FixedLast, ease, System::EaseTranslationLerp);
    app.add_system(ScheduleLabel::FixedFirst, ease, System::EaseRotationHermite);
    app.add_system(ScheduleLabel::FixedLast, ease, System::EaseRotationSlerp);
    assert_eq!(
        systems(&app, ScheduleLabel::FixedLast),
        vec![
            System::ResetEasingStatesOnTransformChange,
            System::EaseScaleLerp,
            System::EaseTranslationLerp,
            System::EaseRotationSlerp,
        ]
    );
    assert_eq!(systems(&app, ScheduleLabel::FixedFirst), vec![System::EaseRotationHermite]);
}

#[test]
fn ranks_follow_the_sets() {
    let sets = [
        TransformEasingSet::Reset,
        TransformEasingSet::UpdateStart,
        TransformEasingSet::UpdateEnd,
        TransformEasingSet::Ease,
        TransformEasingSet::UpdateEasingTick,
    ];
    for (i, set) in sets.iter().enumerate() {
        assert_eq!(set.index() as usize, i);
        assert_eq!(Position::Before(*set).rank() as usize, 2 * i);
        assert_eq!(Position::In(*set).rank() as usize, 2 * i + 1);
        assert!(Position::In(*set).rank() < RANKS);
    }
}

#[test]
fn interpolate_all_makes_the_markers_required() {
    let mut app = App::new();
    TransformInterpolationPlugin {
        interpolate_translation_all: true,
        interpolate_rotation_all: false,
        interpolate_scale_all: true,
    }
    .build(&mut app);
    assert!(app.required.translation_interpolation_for_all);
    assert!(!app.required.rotation_interpolation_for_all);
    assert!(app.required.scale_interpolation_for_all);
    assert!(!app.required.translation_extrapolation_for_all);
    // Building another plugin that requires less takes nothing back.
    TransformInterpolationPlugin::default().build(&mut app);
    assert!(app.required.translation_interpolation_for_all);
    assert!(app.required.scale_interpolation_for_all);
}

#[test]
fn extrapolate_all_makes_the_markers_required() {
    let mut app = App::new();
    TransformExtrapolationPlugin::<(), ()>::extrapolate_all().build(&mut app);
    assert!(app.required.translation_extrapolation_for_all);
    assert!(app.required.rotation_extrapolation_for_all);
    assert!(!app.required.translation_interpolation_for_all);
    let mut app = App::new();
    TransformExtrapolationPlugin::<(), ()>::default().build(&mut app);
    assert!(!app.required.translation_extrapolation_for_all);
    assert!(!app.required.rotation_extrapolation_for_all);
}

#[test]
fn every_pass_has_its_position() {
    let before_reset = Position::Before(TransformEasingSet::Reset);
    let reset = Position::In(TransformEasingSet::Reset);
    let start = Position::In(TransformEasingSet::UpdateStart);
    let end = Position::In(TransformEasingSet::UpdateEnd);
    let before_ease = Position::Before(TransformEasingSet::Ease);
    let ease = Position::In(TransformEasingSet::Ease);
    let tick = Position::In(TransformEasingSet::UpdateEasingTick);
    let expected = [
        (System::ResetTranslationEasing, reset),
        (System::ResetRotationEasing, reset),
        (System::ResetScaleEasing, reset),
        (System::ResetEasingStatesOnTransformChange, before_ease),
        (System::EaseTranslationLerp, ease),
        (System::EaseRotationSlerp, ease),
        (System::EaseScaleLerp, ease),
        (System::UpdateLastEasingTick, tick),
        (System::CompleteTranslationEasing, before_reset),
        (System::CompleteRotationEasing, before_reset),
        (System::CompleteScaleEasing, before_reset),
        (System::UpdateTranslationInterpolationStart, start),
        (System::UpdateRotationInterpolationStart, start),
        (System::UpdateScaleInterpolationStart, start),
        (System::UpdateTranslationInterpolationEnd, end),
        (System::UpdateRotationInterpolationEnd, end),
        (System::UpdateScaleInterpolationEnd, end),
        (System::ResetTranslationExtrapolation, before_reset),
        (System::ResetRotationExtrapolation, before_reset),
        (System::UpdateTranslationExtrapolationStates, end),
        (System::UpdateRotationExtrapolationStates, end),
        (System::EaseTranslationHermite, ease),
        (System::EaseRotationHermite, ease),
    ];
    for (system, position) in expected {
        assert_eq!(system.position(), position);
    }
}

#[test]
fn plugins_put_every_pass_at_its_position() {
    let app = full_app();
    assert_eq!(app.systems.len(), 23);
    for placement in &app.systems {
        assert_eq!(placement.position, placement.system.position());
    }
}

#[test]
fn add_pass_places_a_pass_at_its_position() {
    let mut app = App::new();
    app.add_pass(ScheduleLabel::Custom(7), System::UpdateLastEasingTick);
    app.add_pass(ScheduleLabel::Custom(7), System::CompleteScaleEasing);
    assert_eq!(app.systems.len(), 2);
    assert_eq!(app.systems[0].schedule, ScheduleLabel::Custom(7));
    assert_eq!(app.systems[0].position, Position::In(TransformEasingSet::UpdateEasingTick));
    assert_eq!(app.systems[1].position, Position::Before(TransformEasingSet::Reset));
    assert_eq!(
        systems(&app, ScheduleLabel::Custom(7)),
        vec![System::CompleteScaleEasing, System::UpdateLastEasingTick]
    );
}

#[test]
fn configure_set_records_the_set() {
    let mut app = App::new();
    app.configure_set(ScheduleLabel::FixedLast, TransformEasingSet::UpdateEnd, None);
    app.configure_set(
        ScheduleLabel::Custom(3),
        TransformEasingSet::Ease,
        Some(RunFixedMainLoopSystem::BeforeFixedMainLoop),
    );
    assert_eq!(
        app.sets,
        vec![
            SetPlacement {
                schedule: ScheduleLabel::FixedLast,
                set: TransformEasingSet::UpdateEnd,
                within: None
            },
            SetPlacement {
                schedule: ScheduleLabel::Custom(3),
                set: TransformEasingSet::Ease,
                within: Some(RunFixedMainLoopSystem::BeforeFixedMainLoop)
            },
        ]
    );
    assert!(app.systems.is_empty());
}
