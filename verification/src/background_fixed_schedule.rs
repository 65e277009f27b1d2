//! Bookkeeping for a simulation that runs in the background, one step at a
//! time, while frames keep being rendered.
//!
//! The host starts a step as a task, polls it once per frame and, when it has
//! finished, queues its result. A queued result is written back to the world
//! as soon as the render time has caught up with the simulated time; results
//! are written back in the order in which they arrived, one per frame.
//!
//! Starting tasks, receiving from them and writing a result to the world are
//! the host's work. What is decided here is when to wait, when to block, what
//! is queued and what is taken from the queue. All times are in nanoseconds.

use std::collections::VecDeque;
use vstd::prelude::*;

verus! {

/// The number of frames after which the host no longer polls a running task
/// but blocks until it has finished.
pub const MAX_FRAMES_BEFORE_BLOCKING: u32 = 60;

/// The number of steps that one task simulates.
pub const SUBSTEP_COUNT: u32 = 1;

/// A running task, as far as the bookkeeping goes.
#[derive(Clone, Copy, Debug)]
pub struct WorkTask {
    /// The render time at which the task was started.
    pub started_at_render_time: u64,
    /// The number of frames that have elapsed since the task was started.
    pub update_frames_elapsed: u32,
}

/// What a task has computed.
#[derive(Debug)]
pub struct TaskResultRaw<R> {
    /// The transforms that the task has produced, in the host's own form.
    pub transforms: R,
    /// The time that the task has simulated, which is not the time that it
    /// took to compute.
    pub simulated_time: u64,
}

/// The result of a task, with what is known about it once it is received.
#[derive(Debug)]
pub struct TaskResult<R> {
    /// What the task has computed.
    pub result_raw: TaskResultRaw<R>,
    /// The render time that went by while the task was running.
    pub render_time_elapsed_during_the_simulation: u64,
    /// The render time at which the task was started.
    pub started_at_render_time: u64,
    /// The number of frames that elapsed while the task was running.
    pub update_frames_elapsed: u32,
}

/// The results that have been received and not yet written back, oldest
/// first.
#[derive(Debug)]
pub struct TaskResults<R> {
    pub results: VecDeque<TaskResult<R>>,
}

/// How far the render time is ahead of the simulated time.
#[derive(Clone, Copy, Debug)]
pub struct TaskToRenderTime {
    /// Render time minus simulated time. It is negative while the simulation
    /// is ahead.
    pub diff: i128,
    /// The number of frames that the last task took.
    pub last_task_frame_count: u32,
}

/// The duration of one simulated step.
#[derive(Clone, Copy, Debug)]
pub struct Timestep {
    pub timestep: u64,
}

/// The parts of a frame relative to the background step.
#[derive(Clone, Copy, Debug, PartialEq, Eq, Hash, Structural)]
pub enum FixedMainLoop {
    Before,
    During,
    After,
}

/// The schedules that run, in this order, when a result is written back.
#[derive(Clone, Copy, Debug, PartialEq, Eq, Hash, Structural)]
pub enum TaskSchedule {
    /// Runs before the result is written to the world.
    PreWriteBack,
    /// Writes the result to the world.
    WriteBack,
    /// Starts the next task.
    SpawnTask,
    /// Runs after the result was written to the world.
    PostWriteBack,
}

/// How the host is to receive from a running task in this frame.
#[derive(Clone, Copy, Debug, PartialEq, Eq, Structural)]
pub enum Receive {
    /// Take the result if it is there, and go on if it is not.
    Poll,
    /// Wait for the result.
    Block,
}

/// What the per-frame pass of the background step has decided.
#[derive(Clone, Copy, Debug, PartialEq, Eq, Structural)]
pub enum FixedMainOutcome {
    /// The simulation is ahead of the render time by more than it may be:
    /// nothing is written back in this frame.
    TooFarAhead,
    /// The render time has caught up, but no result has arrived yet.
    NoResult,
    /// The oldest result is due: the schedules of `HandleTask` are to run.
    Advance,
}

impl Default for TaskToRenderTime {
    fn default() -> (time: TaskToRenderTime)
        ensures
            time.diff == 0,
            time.last_task_frame_count == 0,
    {
        TaskToRenderTime { diff: 0, last_task_frame_count: 0 }
    }
}

impl Default for Timestep {
    fn default() -> (timestep: Timestep)
        ensures
            timestep.timestep == 0,
    {
        Timestep { timestep: 0 }
    }
}

impl<R> TaskResults<R> {
    /// Returns a queue without results.
    pub fn new() -> (results: TaskResults<R>)
        ensures
            results.results@.len() == 0,
    {
        TaskResults { results: VecDeque::new() }
    }
}

impl WorkTask {
    /// Returns the bookkeeping of a task that is started now.
    pub fn new(started_at_render_time: u64) -> (task: WorkTask)
        ensures
            task == (WorkTask { started_at_render_time, update_frames_elapsed: 0 }),
    {
        WorkTask { started_at_render_time, update_frames_elapsed: 0 }
    }

    /// How to receive from a task that has been running for `frames` frames.
    pub open spec fn receive_after(frames: u32) -> Receive {
        if frames > MAX_FRAMES_BEFORE_BLOCKING {
            Receive::Block
        } else {
            Receive::Poll
        }
    }

    /// Counts one more frame for the running task and decides how to receive
    /// from it: the task is polled for sixty frames and waited for from then
    /// on, so that the simulation does not fall further behind.
    pub fn frame_elapsed(&mut self) -> (receive: Receive)
        requires
            old(self).update_frames_elapsed < u32::MAX,
        ensures
            final(self).update_frames_elapsed == old(self).update_frames_elapsed + 1,
            final(self).started_at_render_time == old(self).started_at_render_time,
            receive == WorkTask::receive_after(final(self).update_frames_elapsed),
    {
        self.update_frames_elapsed += 1;
        if self.update_frames_elapsed > MAX_FRAMES_BEFORE_BLOCKING {
            Receive::Block
        } else {
            Receive::Poll
        }
    }
}

impl Timestep {
    /// Returns the time that a task simulates which runs `substep_count`
    /// steps.
    pub fn simulated_time(&self, substep_count: u32) -> (time: u64)
        requires
            self.timestep * substep_count <= u64::MAX,
        ensures
            time == self.timestep * substep_count,
    {
        if substep_count == 0 {
            return 0;
        }
        assert(self.timestep * substep_count <= u64::MAX);
        self.timestep * (substep_count as u64)
    }
}

/// The result as it is queued when it is received at render time `elapsed`
/// from `task`.
pub open spec fn received<R>(
    task: WorkTask,
    task_result_raw: TaskResultRaw<R>,
    elapsed: u64,
) -> TaskResult<R> {
    TaskResult {
        result_raw: task_result_raw,
        render_time_elapsed_during_the_simulation: (elapsed - task.started_at_render_time) as u64,
        started_at_render_time: task.started_at_render_time,
        update_frames_elapsed: task.update_frames_elapsed,
    }
}

/// Queues the result that was received from `task` at render time `elapsed`,
/// behind the results that are waiting already. The task is then done, and
/// the host drops it.
pub fn finish_task_and_store_result<R>(
    task: &WorkTask,
    results: &mut TaskResults<R>,
    task_result_raw: TaskResultRaw<R>,
    elapsed: u64,
)
    requires
        task.started_at_render_time <= elapsed,
    ensures
        final(results).results@ == old(results).results@.push(
            received(*task, task_result_raw, elapsed),
        ),
{
    results.results.push_back(
        TaskResult {
            result_raw: task_result_raw,
            render_time_elapsed_during_the_simulation: elapsed - task.started_at_render_time,
            started_at_render_time: task.started_at_render_time,
            update_frames_elapsed: task.update_frames_elapsed,
        },
    );
}

/// Takes the oldest result from the queue and records how many frames its
/// task took. The host then writes the result back to the world. With an
/// empty queue nothing changes.
pub fn handle_task<R>(results: &mut TaskResults<R>, task_to_render: &mut TaskToRenderTime) -> (task:
    Option<TaskResult<R>>)
    ensures
        old(results).results@.len() == 0 ==> {
            &&& task is None
            &&& final(results).results@ == old(results).results@
            &&& *final(task_to_render) == *old(task_to_render)
        },
        old(results).results@.len() > 0 ==> {
            &&& task == Some(old(results).results@[0])
            &&& final(results).results@ == old(results).results@.drop_first()
            &&& *final(task_to_render) == (TaskToRenderTime {
                last_task_frame_count: old(results).results@[0].update_frames_elapsed,
                ..*old(task_to_render)
            })
        },
{
    match results.results.pop_front() {
        Some(task) => {
            task_to_render.last_task_frame_count = task.update_frames_elapsed;
            Some(task)
        },
        None => None,
    }
}

/// The sum of `diff` and `delta`, held at the largest value that fits.
pub open spec fn caught_up(diff: i128, delta: u64) -> int {
    if diff + delta > i128::MAX {
        i128::MAX as int
    } else {
        diff + delta
    }
}

/// The per-frame pass that decides whether a result is written back.
#[derive(Clone, Copy, Debug)]
pub struct FixedMain;

impl FixedMain {
    /// Tells whether this is the first frame, in which the first task is
    /// started and nothing else is done, and notes that it has run.
    pub fn first_run(has_run_at_least_once: &mut bool) -> (first: bool)
        ensures
            first == !*old(has_run_at_least_once),
            *final(has_run_at_least_once),
    {
        let first = !*has_run_at_least_once;
        *has_run_at_least_once = true;
        first
    }

    /// What the pass decides, given the render time that has accumulated.
    pub open spec fn outcome<R>(
        caught_up: int,
        timestep: Timestep,
        results: Seq<TaskResult<R>>,
    ) -> FixedMainOutcome {
        if caught_up < timestep.timestep {
            FixedMainOutcome::TooFarAhead
        } else if results.len() == 0 {
            FixedMainOutcome::NoResult
        } else {
            FixedMainOutcome::Advance
        }
    }

    /// Adds the duration of the frame to the time by which rendering is
    /// ahead, and decides whether the oldest result is written back now: it
    /// is once rendering is ahead by at least one step. The simulated time of
    /// that result is then taken off again.
    pub fn run_schedule<R>(
        task_to_render_time: &mut TaskToRenderTime,
        timestep: &Timestep,
        delta: u64,
        results: &TaskResults<R>,
    ) -> (outcome: FixedMainOutcome)
        ensures
            outcome == FixedMain::outcome(
                caught_up(old(task_to_render_time).diff, delta),
                *timestep,
                results.results@,
            ),
            final(task_to_render_time).last_task_frame_count == old(
                task_to_render_time,
            ).last_task_frame_count,
            final(task_to_render_time).diff == if outcome == FixedMainOutcome::Advance {
                caught_up(old(task_to_render_time).diff, delta)
                    - results.results@[0].result_raw.simulated_time
            } else {
                caught_up(old(task_to_render_time).diff, delta)
            },
    {
        // Compute the difference between task and render time.
        let diff = task_to_render_time.diff;
        let diff = if diff > i128::MAX - (delta as i128) {
            i128::MAX
        } else {
            diff + (delta as i128)
        };
        task_to_render_time.diff = diff;
        if diff < timestep.timestep as i128 {
            // The task is too far ahead: do not read the simulation.
            return FixedMainOutcome::TooFarAhead;
        }
        if results.results.len() == 0 {
            return FixedMainOutcome::NoResult;
        }
        let simulated_time = results.results[0].result_raw.simulated_time;
        task_to_render_time.diff = diff - (simulated_time as i128);
        FixedMainOutcome::Advance
    }
}

/// The pass that handles one result.
#[derive(Clone, Copy, Debug)]
pub struct HandleTask;

impl HandleTask {
    /// The schedules that handle one result, in the order in which they run.
    pub open spec fn schedules() -> Seq<TaskSchedule> {
        seq![
            TaskSchedule::PreWriteBack,
            TaskSchedule::WriteBack,
            TaskSchedule::SpawnTask,
            TaskSchedule::PostWriteBack,
        ]
    }

    /// Returns the schedules that handle one result, in the order in which
    /// the host runs them.
    pub fn run_schedule() -> (order: Vec<TaskSchedule>)
        ensures
            order@ == HandleTask::schedules(),
    {
        let mut order: Vec<TaskSchedule> = Vec::new();
        order.push(TaskSchedule::PreWriteBack);
        order.push(TaskSchedule::WriteBack);
        order.push(TaskSchedule::SpawnTask);
        order.push(TaskSchedule::PostWriteBack);
        assert(order@ =~= HandleTask::schedules());
        order
    }
}

/// The schedules that the background step uses.
#[derive(Clone, Copy, Debug, PartialEq, Eq, Hash, Structural)]
pub enum BackgroundSchedule {
    /// The per-frame schedule of the host that contains the fixed steps.
    RunFixedMainLoop,
    /// The schedule that runs when a result is due.
    FixedMain,
    /// One of the four schedules that handle a result.
    Task(TaskSchedule),
}

/// The passes of the background step, by name.
#[derive(Clone, Copy, Debug, PartialEq, Eq, Hash, Structural)]
pub enum BackgroundSystem {
    /// Decides once per frame whether a result is due.
    RunFixedMain,
    /// Runs the four schedules that handle a result.
    RunHandleTask,
    /// Takes the oldest result from the queue and writes it back.
    HandleTask,
    /// Takes from the world what the next task needs.
    Extract,
    /// Starts the next task.
    SpawnTask,
}

/// One pass of the background step as it was added to a plan.
#[derive(Clone, Copy, Debug, PartialEq, Eq, Hash, Structural)]
pub struct BackgroundPlacement {
    /// The schedule in which the pass runs.
    pub schedule: BackgroundSchedule,
    /// The pass.
    pub system: BackgroundSystem,
}

/// The plan of the background step: its passes, each with its schedule, in
/// the order in which they run within a schedule, and the schedules in which
/// two passes that could run in either order are an error.
#[derive(Debug)]
pub struct BackgroundPlan {
    pub systems: Vec<BackgroundPlacement>,
    pub strict_schedules: Vec<BackgroundSchedule>,
}

/// Adds the passes of the background step to a plan.
#[derive(Clone, Copy, Debug)]
pub struct BackgroundFixedUpdatePlugin;

impl BackgroundPlan {
    /// Returns a plan without passes.
    pub fn new() -> (plan: BackgroundPlan)
        ensures
            plan.systems@.len() == 0,
            plan.strict_schedules@.len() == 0,
    {
        BackgroundPlan { systems: Vec::new(), strict_schedules: Vec::new() }
    }
}

impl BackgroundFixedUpdatePlugin {
    /// The passes that the plugin adds, in order: the per-frame decision,
    /// the pass that runs the four schedules of a result, the write-back,
    /// and the extraction followed by the start of the next task.
    pub open spec fn systems() -> Seq<BackgroundPlacement> {
        seq![
            BackgroundPlacement {
                schedule: BackgroundSchedule::RunFixedMainLoop,
                system: BackgroundSystem::RunFixedMain,
            },
            BackgroundPlacement {
                schedule: BackgroundSchedule::FixedMain,
                system: BackgroundSystem::RunHandleTask,
            },
            BackgroundPlacement {
                schedule: BackgroundSchedule::Task(TaskSchedule::WriteBack),
                system: BackgroundSystem::HandleTask,
            },
            BackgroundPlacement {
                schedule: BackgroundSchedule::Task(TaskSchedule::SpawnTask),
                system: BackgroundSystem::Extract,
            },
            BackgroundPlacement {
                schedule: BackgroundSchedule::Task(TaskSchedule::SpawnTask),
                system: BackgroundSystem::SpawnTask,
            },
        ]
    }

    /// The schedules that the plugin makes strict, in order.
    pub open spec fn strict_schedules() -> Seq<BackgroundSchedule> {
        seq![
            BackgroundSchedule::FixedMain,
            BackgroundSchedule::Task(TaskSchedule::WriteBack),
            BackgroundSchedule::Task(TaskSchedule::SpawnTask),
            BackgroundSchedule::Task(TaskSchedule::PostWriteBack),
        ]
    }

    /// Adds the passes of the background step to the plan and makes the
    /// schedules of a result strict.
    pub fn build(&self, plan: &mut BackgroundPlan)
        ensures
            final(plan).systems@ == old(plan).systems@ + Self::systems(),
            final(plan).strict_schedules@ == old(plan).strict_schedules@ + Self::strict_schedules(),
    {
        plan.systems.push(
            BackgroundPlacement {
                schedule: BackgroundSchedule::RunFixedMainLoop,
                system: BackgroundSystem::RunFixedMain,
            },
        );

        // This checks for a finished task, runs the schedules of its result
        // and starts the next task.
        plan.systems.push(
            BackgroundPlacement {
                schedule: BackgroundSchedule::FixedMain,
                system: BackgroundSystem::RunHandleTask,
            },
        );
        plan.strict_schedules.push(BackgroundSchedule::FixedMain);

        // Those schedules are part of the one above.
        plan.systems.push(
            BackgroundPlacement {
                schedule: BackgroundSchedule::Task(TaskSchedule::WriteBack),
                system: BackgroundSystem::HandleTask,
            },
        );
        plan.strict_schedules.push(BackgroundSchedule::Task(TaskSchedule::WriteBack));
        plan.systems.push(
            BackgroundPlacement {
                schedule: BackgroundSchedule::Task(TaskSchedule::SpawnTask),
                system: BackgroundSystem::Extract,
            },
        );
        plan.systems.push(
            BackgroundPlacement {
                schedule: BackgroundSchedule::Task(TaskSchedule::SpawnTask),
                system: BackgroundSystem::SpawnTask,
            },
        );
        plan.strict_schedules.push(BackgroundSchedule::Task(TaskSchedule::SpawnTask));
        plan.strict_schedules.push(BackgroundSchedule::Task(TaskSchedule::PostWriteBack));
        assert(plan.systems@ =~= old(plan).systems@ + Self::systems());
        assert(plan.strict_schedules@ =~= old(plan).strict_schedules@ + Self::strict_schedules());
    }
}

/// Results leave the queue in the order in which they arrived: after any
/// number of results was queued behind those that were waiting, the oldest of
/// those that were waiting is still the next to be handled, and what remains
/// after it is the rest of them followed by the new ones, in order.
pub proof fn results_are_handled_in_arrival_order<R>(
    waiting: Seq<TaskResult<R>>,
    arrived: Seq<TaskResult<R>>,
)
    requires
        waiting.len() > 0,
    ensures
        (waiting + arrived)[0] == waiting[0],
        (waiting + arrived).drop_first() == waiting.drop_first() + arrived,
        (waiting + arrived).len() == waiting.len() + arrived.len(),
{
    assert((waiting + arrived).drop_first() =~= waiting.drop_first() + arrived);
}

} // verus!
