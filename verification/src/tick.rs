//! Change ticks: the counter by which writes to a transform are dated.
//!
//! The counter is 32 bits wide and wraps around. Ages are therefore measured
//! relative to the tick of the observer and clamped to `MAX_CHANGE_AGE`.

use bevy::ecs::component::Tick;
use vstd::prelude::*;

verus! {

/// The largest age that a change can have and still be told apart from older
/// changes. The value equals `u32::MAX - (2 * 518_400_000 - 1)`.
pub const MAX_CHANGE_AGE: u32 = 3_258_167_296;

/// Distance from `earlier` up to `later` on the wrapping 32-bit counter.
pub open spec fn ticks_since(later: u32, earlier: u32) -> int {
    if later >= earlier {
        later - earlier
    } else {
        later - earlier + 0x1_0000_0000
    }
}

/// An age, clamped to `MAX_CHANGE_AGE`.
pub open spec fn clamped_age(age: int) -> int {
    if age < MAX_CHANGE_AGE {
        age
    } else {
        MAX_CHANGE_AGE as int
    }
}

/// A change dated `tick` happened after the observer's run dated `last_run`,
/// as seen from the run dated `this_run`: the clamped age of `last_run` is
/// strictly greater than the clamped age of `tick`.
pub open spec fn tick_is_newer_than_spec(tick: u32, last_run: u32, this_run: u32) -> bool {
    clamped_age(ticks_since(this_run, last_run)) > clamped_age(ticks_since(this_run, tick))
}

/// Calls `Tick::is_newer_than` of `bevy_ecs` on ticks built with `Tick::new`
/// from the three counters.
///
/// The contract restates the body of that method: both ages are taken with a
/// wrapping subtraction from `this_run`, clamped to the crate's
/// `MAX_CHANGE_AGE`, and compared with `>`.
#[verifier::external_body]
pub(crate) fn tick_is_newer_than(tick: u32, last_run: u32, this_run: u32) -> (newer: bool)
    ensures
        newer == tick_is_newer_than_spec(tick, last_run, this_run),
{
    Tick::new(tick).is_newer_than(Tick::new(last_run), Tick::new(this_run))
}

/// The ticks of one run of a system: when it last ran, and the current run.
#[derive(Clone, Copy, Debug)]
pub struct SystemChangeTick {
    pub last_run: u32,
    pub this_run: u32,
}

impl SystemChangeTick {
    /// Builds the pair of ticks of one run.
    pub fn new(last_run: u32, this_run: u32) -> (ticks: SystemChangeTick)
        ensures
            ticks == (SystemChangeTick { last_run, this_run }),
    {
        SystemChangeTick { last_run, this_run }
    }

    /// The tick of the previous run.
    pub fn last_run(&self) -> (tick: u32)
        ensures
            tick == self.last_run,
    {
        self.last_run
    }

    /// The tick of the current run.
    pub fn this_run(&self) -> (tick: u32)
        ensures
            tick == self.this_run,
    {
        self.this_run
    }
}

/// The tick of the run in which values were last eased.
///
/// A write to a transform that is newer than this tick did not come from the
/// blend of the previous frame.
#[derive(Clone, Copy, Debug)]
pub struct LastEasingTick {
    pub tick: u32,
}

impl LastEasingTick {
    /// The tick that is stored.
    pub fn get(&self) -> (tick: u32)
        ensures
            tick == self.tick,
    {
        self.tick
    }
}

impl Default for LastEasingTick {
    fn default() -> (last: LastEasingTick)
        ensures
            last.tick == 0,
    {
        LastEasingTick { tick: 0 }
    }
}

/// Records the tick of the run that has just eased the transforms.
pub fn update_last_easing_tick(
    last_easing_tick: &mut LastEasingTick,
    system_change_tick: SystemChangeTick,
)
    ensures
        final(last_easing_tick).tick == system_change_tick.this_run,
{
    last_easing_tick.tick = system_change_tick.this_run;
}

/// A change made in the observer's own run is never newer than that run, and
/// a change made in any later run, up to the clamping age, is.
pub proof fn newer_than_within_window(tick: u32, last_run: u32, this_run: u32)
    requires
        ticks_since(this_run, last_run) <= MAX_CHANGE_AGE,
    ensures
        tick_is_newer_than_spec(tick, last_run, this_run) <==> ticks_since(this_run, tick)
            < ticks_since(this_run, last_run),
        !tick_is_newer_than_spec(last_run, last_run, this_run),
{
}

} // verus!
