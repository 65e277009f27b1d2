//! The plan of passes: which pass runs in which schedule, and in what order.
//!
//! A plugin adds its passes to an `App`, each with the schedule it runs in and
//! its position relative to one of the easing sets. The order in which the
//! passes of one schedule run follows from the positions alone: the sets are
//! ordered `Reset`, `UpdateStart`, `UpdateEnd`, `Ease`, `UpdateEasingTick`, a
//! pass placed before a set runs before the passes in it, and passes at the
//! same position run in the order in which they were added.

use crate::tick::LastEasingTick;
use vstd::prelude::*;

verus! {

/// The schedules of a host in which passes can be placed.
#[derive(Clone, Copy, Debug, PartialEq, Eq, Hash, Structural)]
pub enum ScheduleLabel {
    /// Runs first in every fixed step.
    FixedFirst,
    /// Runs last in every fixed step.
    FixedLast,
    /// Runs once per frame and contains the fixed steps that are due.
    RunFixedMainLoop,
    /// A schedule of the host's own, told apart by its number.
    Custom(u32),
}

/// The parts of the per-frame schedule relative to the fixed steps.
#[derive(Clone, Copy, Debug, PartialEq, Eq, Hash, Structural)]
pub enum RunFixedMainLoopSystem {
    /// Before the fixed steps of the frame.
    BeforeFixedMainLoop,
    /// The fixed steps of the frame.
    FixedMainLoop,
    /// After the fixed steps of the frame.
    AfterFixedMainLoop,
    /// A set of the host's own, told apart by its number.
    Custom(u32),
}

/// The sets into which the passes of easing are grouped.
#[derive(Clone, Copy, Debug, PartialEq, Eq, Hash, Structural)]
pub enum TransformEasingSet {
    /// Resets easing states at the start of the fixed step.
    Reset,
    /// Updates the start values for easing at the start of the fixed step.
    UpdateStart,
    /// Updates the end values for easing at the end of the fixed step.
    UpdateEnd,
    /// Eases the transform values in between the start and end states.
    Ease,
    /// Updates the last tick at which easing was performed.
    UpdateEasingTick,
}

/// The passes, by name.
#[derive(Clone, Copy, Debug, PartialEq, Eq, Hash, Structural)]
pub enum System {
    ResetTranslationEasing,
    ResetRotationEasing,
    ResetScaleEasing,
    ResetEasingStatesOnTransformChange,
    EaseTranslationLerp,
    EaseRotationSlerp,
    EaseScaleLerp,
    UpdateLastEasingTick,
    CompleteTranslationEasing,
    CompleteRotationEasing,
    CompleteScaleEasing,
    UpdateTranslationInterpolationStart,
    UpdateRotationInterpolationStart,
    UpdateScaleInterpolationStart,
    UpdateTranslationInterpolationEnd,
    UpdateRotationInterpolationEnd,
    UpdateScaleInterpolationEnd,
    ResetTranslationExtrapolation,
    ResetRotationExtrapolation,
    UpdateTranslationExtrapolationStates,
    UpdateRotationExtrapolationStates,
    EaseTranslationHermite,
    EaseRotationHermite,
}

/// Where a pass runs relative to an easing set.
#[derive(Clone, Copy, Debug, PartialEq, Eq, Hash, Structural)]
pub enum Position {
    /// Before every pass of the set.
    Before(TransformEasingSet),
    /// As one of the passes of the set.
    In(TransformEasingSet),
}

/// The number of distinct ranks that a position can have.
pub const RANKS: u8 = 10;

impl TransformEasingSet {
    /// The place of the set in the order of sets, counted from zero.
    pub open spec fn index_spec(self) -> int {
        match self {
            TransformEasingSet::Reset => 0,
            TransformEasingSet::UpdateStart => 1,
            TransformEasingSet::UpdateEnd => 2,
            TransformEasingSet::Ease => 3,
            TransformEasingSet::UpdateEasingTick => 4,
        }
    }

    /// Returns the place of the set in the order of sets, counted from zero.
    pub fn index(self) -> (i: u8)
        ensures
            i == self.index_spec(),
    {
        match self {
            TransformEasingSet::Reset => 0,
            TransformEasingSet::UpdateStart => 1,
            TransformEasingSet::UpdateEnd => 2,
            TransformEasingSet::Ease => 3,
            TransformEasingSet::UpdateEasingTick => 4,
        }
    }
}

impl Position {
    /// The rank by which passes are ordered: twice the index of the set, plus
    /// one for a pass in the set.
    pub open spec fn rank_spec(self) -> int {
        match self {
            Position::Before(set) => 2 * set.index_spec(),
            Position::In(set) => 2 * set.index_spec() + 1,
        }
    }

    /// Returns the rank by which passes are ordered.
    pub fn rank(self) -> (r: u8)
        ensures
            r == self.rank_spec(),
            r < RANKS,
    {
        match self {
            Position::Before(set) => 2 * set.index(),
            Position::In(set) => 2 * set.index() + 1,
        }
    }
}

impl System {
    /// Where the pass runs relative to the easing sets.
    pub open spec fn position_spec(self) -> Position {
        match self {
            System::ResetTranslationEasing
            | System::ResetRotationEasing
            | System::ResetScaleEasing => Position::In(TransformEasingSet::Reset),
            System::ResetEasingStatesOnTransformChange => Position::Before(
                TransformEasingSet::Ease,
            ),
            System::EaseTranslationLerp
            | System::EaseRotationSlerp
            | System::EaseScaleLerp
            | System::EaseTranslationHermite
            | System::EaseRotationHermite => Position::In(TransformEasingSet::Ease),
            System::UpdateLastEasingTick => Position::In(TransformEasingSet::UpdateEasingTick),
            System::CompleteTranslationEasing
            | System::CompleteRotationEasing
            | System::CompleteScaleEasing
            | System::ResetTranslationExtrapolation
            | System::ResetRotationExtrapolation => Position::Before(TransformEasingSet::Reset),
            System::UpdateTranslationInterpolationStart
            | System::UpdateRotationInterpolationStart
            | System::UpdateScaleInterpolationStart => Position::In(
                TransformEasingSet::UpdateStart,
            ),
            System::UpdateTranslationInterpolationEnd
            | System::UpdateRotationInterpolationEnd
            | System::UpdateScaleInterpolationEnd
            | System::UpdateTranslationExtrapolationStates
            | System::UpdateRotationExtrapolationStates => Position::In(
                TransformEasingSet::UpdateEnd,
            ),
        }
    }

    /// Returns where the pass runs relative to the easing sets.
    pub fn position(self) -> (position: Position)
        ensures
            position == self.position_spec(),
    {
        match self {
            System::ResetTranslationEasing
            | System::ResetRotationEasing
            | System::ResetScaleEasing => Position::In(TransformEasingSet::Reset),
            System::ResetEasingStatesOnTransformChange => Position::Before(
                TransformEasingSet::Ease,
            ),
            System::EaseTranslationLerp
            | System::EaseRotationSlerp
            | System::EaseScaleLerp
            | System::EaseTranslationHermite
            | System::EaseRotationHermite => Position::In(TransformEasingSet::Ease),
            System::UpdateLastEasingTick => Position::In(TransformEasingSet::UpdateEasingTick),
            System::CompleteTranslationEasing
            | System::CompleteRotationEasing
            | System::CompleteScaleEasing
            | System::ResetTranslationExtrapolation
            | System::ResetRotationExtrapolation => Position::Before(TransformEasingSet::Reset),
            System::UpdateTranslationInterpolationStart
            | System::UpdateRotationInterpolationStart
            | System::UpdateScaleInterpolationStart => Position::In(
                TransformEasingSet::UpdateStart,
            ),
            System::UpdateTranslationInterpolationEnd
            | System::UpdateRotationInterpolationEnd
            | System::UpdateScaleInterpolationEnd
            | System::UpdateTranslationExtrapolationStates
            | System::UpdateRotationExtrapolationStates => Position::In(
                TransformEasingSet::UpdateEnd,
            ),
        }
    }
}

/// One pass as it was added to the plan.
#[derive(Clone, Copy, Debug, PartialEq, Eq, Hash, Structural)]
pub struct Placement {
    /// The schedule in which the pass runs.
    pub schedule: ScheduleLabel,
    /// Where in the schedule it runs.
    pub position: Position,
    /// The pass.
    pub system: System,
}

/// One easing set as it was configured in a schedule.
#[derive(Clone, Copy, Debug, PartialEq, Eq, Hash, Structural)]
pub struct SetPlacement {
    /// The schedule in which the set is configured.
    pub schedule: ScheduleLabel,
    /// The set.
    pub set: TransformEasingSet,
    /// The part of the per-frame schedule that the set belongs to, if any.
    pub within: Option<RunFixedMainLoopSystem>,
}

/// The markers that are added to an entity along with something else.
#[derive(Clone, Copy, Debug, PartialEq, Eq, Structural)]
pub struct RequiredComponents {
    /// Every entity with a transform has its translation interpolated.
    pub translation_interpolation_for_all: bool,
    /// Every entity with a transform has its rotation interpolated.
    pub rotation_interpolation_for_all: bool,
    /// Every entity with a transform has its scale interpolated.
    pub scale_interpolation_for_all: bool,
    /// Every entity with a transform has its translation extrapolated.
    pub translation_extrapolation_for_all: bool,
    /// Every entity with a transform has its rotation extrapolated.
    pub rotation_extrapolation_for_all: bool,
    /// The marker for the cubic blend of the translation brings the marker
    /// that switches its straight blend off.
    pub translation_hermite_is_nonlinear: bool,
    /// The marker for the cubic blend of the rotation brings the marker that
    /// switches its straight blend off.
    pub rotation_hermite_is_nonlinear: bool,
}

impl RequiredComponents {
    /// Nothing is added along with anything.
    pub open spec fn none() -> RequiredComponents {
        RequiredComponents {
            translation_interpolation_for_all: false,
            rotation_interpolation_for_all: false,
            scale_interpolation_for_all: false,
            translation_extrapolation_for_all: false,
            rotation_extrapolation_for_all: false,
            translation_hermite_is_nonlinear: false,
            rotation_hermite_is_nonlinear: false,
        }
    }
}

impl Default for RequiredComponents {
    fn default() -> (required: RequiredComponents)
        ensures
            required == RequiredComponents::none(),
    {
        RequiredComponents {
            translation_interpolation_for_all: false,
            rotation_interpolation_for_all: false,
            scale_interpolation_for_all: false,
            translation_extrapolation_for_all: false,
            rotation_extrapolation_for_all: false,
            translation_hermite_is_nonlinear: false,
            rotation_hermite_is_nonlinear: false,
        }
    }
}

/// The plugins that have been added to a plan.
#[derive(Clone, Copy, Debug, PartialEq, Eq, Structural)]
pub struct Plugins {
    pub transform_easing: bool,
    pub transform_interpolation: bool,
    pub transform_extrapolation: bool,
    pub transform_hermite_easing: bool,
}

/// The plan that the plugins of this library fill in for a host.
#[derive(Clone, Debug)]
pub struct App {
    /// The passes, in the order in which they were added.
    pub systems: Vec<Placement>,
    /// The easing sets, in the order in which they were configured.
    pub sets: Vec<SetPlacement>,
    /// The markers that are added along with others.
    pub required: RequiredComponents,
    /// The plugins that were added.
    pub plugins: Plugins,
    /// The tick of the last easing, once that resource exists.
    pub last_easing_tick: Option<LastEasingTick>,
}

/// The passes among `systems` that run in `schedule` at rank `rank`, in the
/// order in which they were added.
pub open spec fn placed_at(systems: Seq<Placement>, schedule: ScheduleLabel, rank: int) -> Seq<
    Placement,
> {
    systems.filter(|p: Placement| p.schedule == schedule && p.position.rank_spec() == rank)
}

/// The passes among `systems` that run in `schedule` at a rank below `ranks`,
/// by rank and, within a rank, in the order in which they were added.
pub open spec fn placed_below(systems: Seq<Placement>, schedule: ScheduleLabel, ranks: nat) -> Seq<
    Placement,
>
    decreases ranks,
{
    if ranks == 0 {
        Seq::empty()
    } else {
        placed_below(systems, schedule, (ranks - 1) as nat) + placed_at(
            systems,
            schedule,
            ranks - 1,
        )
    }
}

/// The order in which the passes of `schedule` run.
pub open spec fn run_order_spec(systems: Seq<Placement>, schedule: ScheduleLabel) -> Seq<Placement> {
    placed_below(systems, schedule, RANKS as nat)
}

/// Every pass among `systems` stands at the position that belongs to it.
pub open spec fn is_regular(systems: Seq<Placement>) -> bool {
    forall|i: int|
        0 <= i < systems.len() ==> (#[trigger] systems[i]).position
            == systems[i].system.position_spec()
}

impl App {
    /// The plan to which nothing has been added.
    pub open spec fn is_empty(&self) -> bool {
        &&& self.systems@.len() == 0
        &&& self.sets@.len() == 0
        &&& self.required == RequiredComponents::none()
        &&& self.plugins == (Plugins {
            transform_easing: false,
            transform_interpolation: false,
            transform_extrapolation: false,
            transform_hermite_easing: false,
        })
        &&& self.last_easing_tick is None
    }

    /// Returns a plan to which nothing has been added.
    pub fn new() -> (app: App)
        ensures
            app.is_empty(),
    {
        App {
            systems: Vec::new(),
            sets: Vec::new(),
            required: RequiredComponents::default(),
            plugins: Plugins {
                transform_easing: false,
                transform_interpolation: false,
                transform_extrapolation: false,
                transform_hermite_easing: false,
            },
            last_easing_tick: None,
        }
    }

    /// Adds a pass to a schedule at a position.
    pub fn add_system(&mut self, schedule: ScheduleLabel, position: Position, system: System)
        ensures
            final(self).systems@ == old(self).systems@.push(Placement { schedule, position, system }),
            final(self).sets == old(self).sets,
            final(self).required == old(self).required,
            final(self).plugins == old(self).plugins,
            final(self).last_easing_tick == old(self).last_easing_tick,
    {
        self.systems.push(Placement { schedule, position, system });
    }

    /// Adds a pass to a schedule, at the position that belongs to it.
    pub fn add_pass(&mut self, schedule: ScheduleLabel, system: System)
        ensures
            final(self).systems@ == old(self).systems@.push(
                Placement { schedule, position: system.position_spec(), system },
            ),
            is_regular(old(self).systems@) ==> is_regular(final(self).systems@),
            final(self).sets == old(self).sets,
            final(self).required == old(self).required,
            final(self).plugins == old(self).plugins,
            final(self).last_easing_tick == old(self).last_easing_tick,
    {
        self.add_system(schedule, system.position(), system);
    }

    /// Configures an easing set in a schedule, possibly as a part of a set of
    /// the per-frame schedule.
    pub fn configure_set(
        &mut self,
        schedule: ScheduleLabel,
        set: TransformEasingSet,
        within: Option<RunFixedMainLoopSystem>,
    )
        ensures
            final(self).sets@ == old(self).sets@.push(SetPlacement { schedule, set, within }),
            final(self).systems == old(self).systems,
            final(self).required == old(self).required,
            final(self).plugins == old(self).plugins,
            final(self).last_easing_tick == old(self).last_easing_tick,
    {
        self.sets.push(SetPlacement { schedule, set, within });
    }

    /// Returns the passes of one schedule in the order in which they run.
    pub fn run_order(&self, schedule: ScheduleLabel) -> (order: Vec<Placement>)
        ensures
            order@ == run_order_spec(self.systems@, schedule),
    {
        let mut order: Vec<Placement> = Vec::new();
        let mut rank: u8 = 0;
        while rank < RANKS
            invariant
                rank <= RANKS,
                order@ == placed_below(self.systems@, schedule, rank as nat),
            decreases RANKS - rank,
        {
            let ghost below = order@;
            let mut i: usize = 0;
            while i < self.systems.len()
                invariant
                    i <= self.systems.len(),
                    rank < RANKS,
                    below == placed_below(self.systems@, schedule, rank as nat),
                    order@ == below + placed_at(self.systems@.take(i as int), schedule, rank as int),
                decreases self.systems.len() - i,
            {
                let placement = self.systems[i];
                proof {
                    let pred = |p: Placement|
                        p.schedule == schedule && p.position.rank_spec() == rank as int;
                    let next = self.systems@.take(i + 1);
                    assert(next.drop_last() == self.systems@.take(i as int));
                    assert(next.last() == placement);
                    reveal_with_fuel(Seq::filter, 2);
                    assert(next.filter(pred) == if pred(placement) {
                        self.systems@.take(i as int).filter(pred).push(placement)
                    } else {
                        self.systems@.take(i as int).filter(pred)
                    });
                }
                if placement.schedule == schedule && placement.position.rank() == rank {
                    order.push(placement);
                }
                i += 1;
            }
            assert(self.systems@.take(i as int) == self.systems@);
            rank += 1;
        }
        order
    }
}

/// Every pass in `placed_below` belongs to the schedule, has a rank below
/// `ranks` and was added to the plan; and the passes stand by rising rank.
proof fn placed_below_is_sorted(systems: Seq<Placement>, schedule: ScheduleLabel, ranks: nat)
    ensures
        forall|i: int|
            0 <= i < placed_below(systems, schedule, ranks).len() ==> {
                let p = #[trigger] placed_below(systems, schedule, ranks)[i];
                &&& p.schedule == schedule
                &&& p.position.rank_spec() < ranks
                &&& systems.contains(p)
            },
        forall|i: int, j: int|
            0 <= i < j < placed_below(systems, schedule, ranks).len() ==> (
            #[trigger] placed_below(systems, schedule, ranks)[i]).position.rank_spec() <= (
            #[trigger] placed_below(systems, schedule, ranks)[j]).position.rank_spec(),
    decreases ranks,
{
    if ranks > 0 {
        let lower = placed_below(systems, schedule, (ranks - 1) as nat);
        let pred = |p: Placement| p.schedule == schedule && p.position.rank_spec() == ranks - 1;
        let here = systems.filter(pred);
        placed_below_is_sorted(systems, schedule, (ranks - 1) as nat);
        assert(placed_below(systems, schedule, ranks) == lower + here);
        assert forall|i: int| 0 <= i < here.len() implies {
            let p = #[trigger] here[i];
            &&& p.schedule == schedule
            &&& p.position.rank_spec() == ranks - 1
            &&& systems.contains(p)
        } by {
            systems.lemma_filter_pred(pred, i);
            assert(here.contains(here[i]));
            systems.lemma_filter_contains_rev(pred, here[i]);
        }
    }
}

/// A pass that was added to the plan for `schedule` at a rank below `ranks`
/// stands in `placed_below`.
proof fn placed_below_is_complete(
    systems: Seq<Placement>,
    schedule: ScheduleLabel,
    ranks: nat,
    k: int,
)
    requires
        0 <= k < systems.len(),
        systems[k].schedule == schedule,
        0 <= systems[k].position.rank_spec() < ranks,
    ensures
        placed_below(systems, schedule, ranks).contains(systems[k]),
    decreases ranks,
{
    let lower = placed_below(systems, schedule, (ranks - 1) as nat);
    let pred = |p: Placement| p.schedule == schedule && p.position.rank_spec() == ranks - 1;
    let here = systems.filter(pred);
    assert(placed_below(systems, schedule, ranks) == lower + here);
    if systems[k].position.rank_spec() == ranks - 1 {
        systems.lemma_filter_contains(pred, k);
        let at = choose|i: int| 0 <= i < here.len() && here[i] == systems[k];
        assert((lower + here)[lower.len() + at] == systems[k]);
    } else {
        placed_below_is_complete(systems, schedule, (ranks - 1) as nat, k);
        let at = choose|i: int| 0 <= i < lower.len() && lower[i] == systems[k];
        assert((lower + here)[at] == systems[k]);
    }
}

/// The passes of a schedule run set by set: a pass never runs before a pass
/// of lower rank. So every pass placed before a set runs before the passes in
/// it, the passes of `Reset` run before those of `UpdateStart`, the check for
/// teleports runs before the passes of `Ease`, and those run before the pass
/// of `UpdateEasingTick`.
pub proof fn run_order_follows_the_sets(
    systems: Seq<Placement>,
    schedule: ScheduleLabel,
    i: int,
    j: int,
)
    requires
        0 <= i < j < run_order_spec(systems, schedule).len(),
    ensures
        run_order_spec(systems, schedule)[i].position.rank_spec() <= run_order_spec(
            systems,
            schedule,
        )[j].position.rank_spec(),
{
    placed_below_is_sorted(systems, schedule, RANKS as nat);
}

/// The passes that run in a schedule are those that were added to the plan
/// for that schedule: none is left out and none is made up.
pub proof fn run_order_holds_the_schedule(
    systems: Seq<Placement>,
    schedule: ScheduleLabel,
    placement: Placement,
)
    ensures
        run_order_spec(systems, schedule).contains(placement) <==> systems.contains(placement)
            && placement.schedule == schedule,
{
    placed_below_is_sorted(systems, schedule, RANKS as nat);
    if systems.contains(placement) && placement.schedule == schedule {
        let k = choose|k: int| 0 <= k < systems.len() && systems[k] == placement;
        placed_below_is_complete(systems, schedule, RANKS as nat, k);
    }
}

/// Passes of one rank run in the order in which they were added: the passes
/// of a rank are a filter of the plan, and stand together in the run order
/// after all passes of lower rank.
pub proof fn run_order_is_stable(systems: Seq<Placement>, schedule: ScheduleLabel, rank: nat)
    requires
        rank < RANKS,
    ensures
        placed_below(systems, schedule, rank + 1) == placed_below(systems, schedule, rank)
            + placed_at(systems, schedule, rank as int),
        placed_below(systems, schedule, rank + 1).is_prefix_of(run_order_spec(systems, schedule)),
{
    placed_below_grows(systems, schedule, rank + 1, RANKS as nat);
}

/// The passes below a rank are a prefix of the passes below a higher rank.
proof fn placed_below_grows(systems: Seq<Placement>, schedule: ScheduleLabel, low: nat, high: nat)
    requires
        low <= high,
    ensures
        placed_below(systems, schedule, low).is_prefix_of(placed_below(systems, schedule, high)),
    decreases high - low,
{
    if low < high {
        placed_below_grows(systems, schedule, low, (high - 1) as nat);
    }
}

/// In a plan in which every pass stands at its own position, the passes of a
/// schedule run phase by phase, whatever the order in which they were added:
/// of two passes whose positions differ, the one with the earlier position
/// runs first. So the previous easing is completed or undone before the
/// easing states are reset, they are reset before a start is recorded, the
/// check for teleports runs before anything is eased, and the tick of the
/// easing is recorded after everything was eased.
pub proof fn passes_run_phase_by_phase(
    systems: Seq<Placement>,
    schedule: ScheduleLabel,
    i: int,
    j: int,
)
    requires
        is_regular(systems),
        0 <= i < run_order_spec(systems, schedule).len(),
        0 <= j < run_order_spec(systems, schedule).len(),
        run_order_spec(systems, schedule)[i].system.position_spec().rank_spec() < run_order_spec(
            systems,
            schedule,
        )[j].system.position_spec().rank_spec(),
    ensures
        i < j,
{
    let order = run_order_spec(systems, schedule);
    placed_below_is_sorted(systems, schedule, RANKS as nat);
    let a = order[i];
    let b = order[j];
    assert(systems.contains(a) && systems.contains(b));
    let ka = choose|k: int| 0 <= k < systems.len() && systems[k] == a;
    let kb = choose|k: int| 0 <= k < systems.len() && systems[k] == b;
    assert(systems[ka].position == systems[ka].system.position_spec());
    assert(systems[kb].position == systems[kb].system.position_spec());
    if j < i {
        assert(order[j].position.rank_spec() <= order[i].position.rank_spec());
    }
}

} // verus!
