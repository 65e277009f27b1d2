//! The plugin of the easing controller: the passes that every way of easing
//! shares.

use crate::schedule::{
    is_regular, App, Placement, Plugins, Position, RunFixedMainLoopSystem, ScheduleLabel,
    SetPlacement, System, TransformEasingSet,
};
use crate::tick::LastEasingTick;
use vstd::prelude::*;

verus! {

/// Adds the passes that reset the easing states, detect teleports, ease the
/// transform between the two snapshots and record when that was done.
///
/// On its own this plugin eases nothing: a producer of snapshots, such as
/// interpolation or extrapolation, has to fill the easing states.
#[derive(Clone, Copy, Debug)]
pub struct TransformEasingPlugin {
    /// The schedule which runs at the start of a fixed step.
    pub schedule_fixed_first: ScheduleLabel,
    /// The schedule which runs at the end of a fixed step.
    pub schedule_fixed_last: ScheduleLabel,
    /// The schedule which runs each frame and contains the fixed steps.
    pub schedule_fixed_loop: ScheduleLabel,
    /// The part of the per-frame schedule that follows the fixed steps.
    pub after_fixed_main_loop: RunFixedMainLoopSystem,
    /// Whether the plugin adds the passes that blend straight between the
    /// snapshots.
    pub update_easing_values: bool,
}

impl Default for TransformEasingPlugin {
    fn default() -> (plugin: TransformEasingPlugin)
        ensures
            plugin == TransformEasingPlugin::default_spec(),
    {
        TransformEasingPlugin {
            schedule_fixed_first: ScheduleLabel::FixedFirst,
            schedule_fixed_last: ScheduleLabel::FixedLast,
            schedule_fixed_loop: ScheduleLabel::RunFixedMainLoop,
            after_fixed_main_loop: RunFixedMainLoopSystem::AfterFixedMainLoop,
            update_easing_values: true,
        }
    }
}

impl TransformEasingPlugin {
    /// The plugin with its default settings: the three schedules of the
    /// host's fixed steps, and the straight blends switched on.
    pub open spec fn default_spec() -> TransformEasingPlugin {
        TransformEasingPlugin {
            schedule_fixed_first: ScheduleLabel::FixedFirst,
            schedule_fixed_last: ScheduleLabel::FixedLast,
            schedule_fixed_loop: ScheduleLabel::RunFixedMainLoop,
            after_fixed_main_loop: RunFixedMainLoopSystem::AfterFixedMainLoop,
            update_easing_values: true,
        }
    }

    /// The easing sets that the plugin configures, in order.
    pub open spec fn sets(&self) -> Seq<SetPlacement> {
        seq![
            SetPlacement {
                schedule: self.schedule_fixed_first,
                set: TransformEasingSet::Reset,
                within: None,
            },
            SetPlacement {
                schedule: self.schedule_fixed_first,
                set: TransformEasingSet::UpdateStart,
                within: None,
            },
            SetPlacement {
                schedule: self.schedule_fixed_last,
                set: TransformEasingSet::UpdateEnd,
                within: None,
            },
            SetPlacement {
                schedule: self.schedule_fixed_loop,
                set: TransformEasingSet::Ease,
                within: Some(self.after_fixed_main_loop),
            },
            SetPlacement {
                schedule: self.schedule_fixed_loop,
                set: TransformEasingSet::UpdateEasingTick,
                within: Some(self.after_fixed_main_loop),
            },
        ]
    }

    /// The passes that clear the easing states and check for teleports.
    pub open spec fn resetting_systems(&self) -> Seq<Placement> {
        seq![
            Placement {
                schedule: self.schedule_fixed_first,
                position: Position::In(TransformEasingSet::Reset),
                system: System::ResetTranslationEasing,
            },
            Placement {
                schedule: self.schedule_fixed_first,
                position: Position::In(TransformEasingSet::Reset),
                system: System::ResetRotationEasing,
            },
            Placement {
                schedule: self.schedule_fixed_first,
                position: Position::In(TransformEasingSet::Reset),
                system: System::ResetScaleEasing,
            },
            Placement {
                schedule: self.schedule_fixed_loop,
                position: Position::Before(TransformEasingSet::Ease),
                system: System::ResetEasingStatesOnTransformChange,
            },
        ]
    }

    /// The passes that blend straight between the snapshots, if the plugin
    /// adds them.
    pub open spec fn easing_systems(&self) -> Seq<Placement> {
        if self.update_easing_values {
            seq![
                Placement {
                    schedule: self.schedule_fixed_loop,
                    position: Position::In(TransformEasingSet::Ease),
                    system: System::EaseTranslationLerp,
                },
                Placement {
                    schedule: self.schedule_fixed_loop,
                    position: Position::In(TransformEasingSet::Ease),
                    system: System::EaseRotationSlerp,
                },
                Placement {
                    schedule: self.schedule_fixed_loop,
                    position: Position::In(TransformEasingSet::Ease),
                    system: System::EaseScaleLerp,
                },
            ]
        } else {
            Seq::empty()
        }
    }

    /// The passes that the plugin adds, in order.
    pub open spec fn systems(&self) -> Seq<Placement> {
        self.resetting_systems() + self.easing_systems() + seq![
            Placement {
                schedule: self.schedule_fixed_loop,
                position: Position::In(TransformEasingSet::UpdateEasingTick),
                system: System::UpdateLastEasingTick,
            },
        ]
    }

    /// `after` is `before` with the plugin built on it: its sets and passes are
    /// appended, the tick of the last easing exists, starting at zero unless
    /// it existed before, and the plugin is noted as added.
    pub open spec fn is_built(&self, before: App, after: App) -> bool {
        &&& after.sets@ == before.sets@ + self.sets()
        &&& after.systems@ == before.systems@ + self.systems()
        &&& after.last_easing_tick == if before.last_easing_tick is Some {
            before.last_easing_tick
        } else {
            Some(LastEasingTick { tick: 0 })
        }
        &&& after.required == before.required
        &&& after.plugins == (Plugins { transform_easing: true, ..before.plugins })
    }

    /// Adds the sets and passes of the plugin to the plan, creates the tick of
    /// the last easing unless it exists, and notes that the plugin was added.
    pub fn build(&self, app: &mut App)
        ensures
            self.is_built(*old(app), *final(app)),
            is_regular(old(app).systems@) ==> is_regular(final(app).systems@),
    {
        if app.last_easing_tick.is_none() {
            app.last_easing_tick = Some(LastEasingTick { tick: 0 });
        }
        // Reset easing states and update start values at the start of the fixed step.

        app.configure_set(self.schedule_fixed_first, TransformEasingSet::Reset, None);
        app.configure_set(self.schedule_fixed_first, TransformEasingSet::UpdateStart, None);

        // Update end values at the end of the fixed step.
        app.configure_set(self.schedule_fixed_last, TransformEasingSet::UpdateEnd, None);

        // Ease right after the fixed steps of the frame.
        app.configure_set(
            self.schedule_fixed_loop,
            TransformEasingSet::Ease,
            Some(self.after_fixed_main_loop),
        );
        app.configure_set(
            self.schedule_fixed_loop,
            TransformEasingSet::UpdateEasingTick,
            Some(self.after_fixed_main_loop),
        );
        assert(app.sets@ =~= old(app).sets@ + self.sets());

        app.add_pass(self.schedule_fixed_first, System::ResetTranslationEasing);
        app.add_pass(self.schedule_fixed_first, System::ResetRotationEasing);
        app.add_pass(self.schedule_fixed_first, System::ResetScaleEasing);
        app.add_pass(self.schedule_fixed_loop, System::ResetEasingStatesOnTransformChange);
        assert(app.systems@ =~= old(app).systems@ + self.resetting_systems());

        if self.update_easing_values {
            // Perform easing.
            app.add_pass(self.schedule_fixed_loop, System::EaseTranslationLerp);
            app.add_pass(self.schedule_fixed_loop, System::EaseRotationSlerp);
            app.add_pass(self.schedule_fixed_loop, System::EaseScaleLerp);
        }
        assert(app.systems@ =~= old(app).systems@ + self.resetting_systems()
            + self.easing_systems());

        // Update the last easing tick.
        app.add_pass(self.schedule_fixed_loop, System::UpdateLastEasingTick);
        assert(app.systems@ =~= old(app).systems@ + self.systems());
        app.plugins.transform_easing = true;
    }
}

} // verus!
