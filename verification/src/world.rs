//! A store of entities, and the passes run over all of them.
//!
//! An entity is known by its place in the store. A place whose entity was
//! removed stays empty, so that the places of the others do not change.

use crate::easing::{
    after_transform_change, reset_easing_states_on_transform_change, reset_rotation_easing,
    reset_scale_easing, reset_translation_easing, rotation_easing_reset, scale_easing_reset,
    translation_easing_reset,
};
use crate::entity::EasedEntity;
use crate::extrapolation::{
    reset_rotation_extrapolation, reset_translation_extrapolation, rotation_extrapolation_undone,
    translation_extrapolation_undone,
};
use crate::interpolation::{
    complete_rotation_easing, complete_scale_easing, complete_translation_easing,
    rotation_easing_completed, rotation_end_recorded, rotation_start_recorded,
    scale_easing_completed, scale_end_recorded, scale_start_recorded, translation_easing_completed,
    translation_end_recorded, translation_start_recorded, update_rotation_interpolation_end,
    update_rotation_interpolation_start, update_scale_interpolation_end,
    update_scale_interpolation_start, update_translation_interpolation_end,
    update_translation_interpolation_start,
};
use crate::schedule::System;
use crate::tick::{update_last_easing_tick, LastEasingTick, SystemChangeTick};
use vstd::prelude::*;

verus! {

/// The name of an entity: its place in the store.
#[derive(Clone, Copy, Debug, PartialEq, Eq, Hash, Structural)]
pub struct Entity {
    pub index: usize,
}

/// The entities of a host, and the tick at which they were last eased.
#[derive(Debug)]
pub struct World {
    /// The entities by place. A place is empty once its entity was removed.
    pub entities: Vec<Option<EasedEntity>>,
    /// The tick of the run in which values were last eased.
    pub last_easing_tick: LastEasingTick,
}

/// The pass needs arithmetic on real numbers between its decision and its
/// effect, so that the host runs it entity by entity.
pub open spec fn needs_host(system: System) -> bool {
    match system {
        System::EaseTranslationLerp
        | System::EaseRotationSlerp
        | System::EaseScaleLerp
        | System::EaseTranslationHermite
        | System::EaseRotationHermite
        | System::UpdateTranslationExtrapolationStates
        | System::UpdateRotationExtrapolationStates => true,
        _ => false,
    }
}

/// What a pass that needs no host does to one entity.
pub open spec fn effect(
    system: System,
    entity: EasedEntity,
    last_easing_tick: LastEasingTick,
    ticks: SystemChangeTick,
) -> EasedEntity {
    match system {
        System::ResetTranslationEasing => translation_easing_reset(entity, ticks.this_run),
        System::ResetRotationEasing => rotation_easing_reset(entity, ticks.this_run),
        System::ResetScaleEasing => scale_easing_reset(entity, ticks.this_run),
        System::ResetEasingStatesOnTransformChange => after_transform_change(
            entity,
            last_easing_tick,
            ticks,
        ),
        System::CompleteTranslationEasing => translation_easing_completed(entity, ticks.this_run),
        System::CompleteRotationEasing => rotation_easing_completed(entity, ticks.this_run),
        System::CompleteScaleEasing => scale_easing_completed(entity, ticks.this_run),
        System::UpdateTranslationInterpolationStart => translation_start_recorded(entity),
        System::UpdateRotationInterpolationStart => rotation_start_recorded(entity),
        System::UpdateScaleInterpolationStart => scale_start_recorded(entity),
        System::UpdateTranslationInterpolationEnd => translation_end_recorded(entity),
        System::UpdateRotationInterpolationEnd => rotation_end_recorded(entity),
        System::UpdateScaleInterpolationEnd => scale_end_recorded(entity),
        System::ResetTranslationExtrapolation => translation_extrapolation_undone(
            entity,
            ticks.this_run,
        ),
        System::ResetRotationExtrapolation => rotation_extrapolation_undone(entity, ticks.this_run),
        _ => entity,
    }
}

/// Runs on one entity a pass that needs no host. A pass that needs one, and
/// the pass that records the tick of the easing, leave the entity as it is.
pub fn run_on_entity(
    system: System,
    entity: &mut EasedEntity,
    last_easing_tick: LastEasingTick,
    ticks: SystemChangeTick,
)
    ensures
        *final(entity) == effect(system, *old(entity), last_easing_tick, ticks),
{
    match system {
        System::ResetTranslationEasing => reset_translation_easing(entity, ticks.this_run),
        System::ResetRotationEasing => reset_rotation_easing(entity, ticks.this_run),
        System::ResetScaleEasing => reset_scale_easing(entity, ticks.this_run),
        System::ResetEasingStatesOnTransformChange => reset_easing_states_on_transform_change(
            entity,
            last_easing_tick,
            ticks,
        ),
        System::CompleteTranslationEasing => complete_translation_easing(entity, ticks.this_run),
        System::CompleteRotationEasing => complete_rotation_easing(entity, ticks.this_run),
        System::CompleteScaleEasing => complete_scale_easing(entity, ticks.this_run),
        System::UpdateTranslationInterpolationStart => update_translation_interpolation_start(
            entity,
        ),
        System::UpdateRotationInterpolationStart => update_rotation_interpolation_start(entity),
        System::UpdateScaleInterpolationStart => update_scale_interpolation_start(entity),
        System::UpdateTranslationInterpolationEnd => update_translation_interpolation_end(entity),
        System::UpdateRotationInterpolationEnd => update_rotation_interpolation_end(entity),
        System::UpdateScaleInterpolationEnd => update_scale_interpolation_end(entity),
        System::ResetTranslationExtrapolation => reset_translation_extrapolation(
            entity,
            ticks.this_run,
        ),
        System::ResetRotationExtrapolation => reset_rotation_extrapolation(entity, ticks.this_run),
        _ => {},
    }
}

impl World {
    /// The store holds an entity at the place that `entity` names.
    pub open spec fn contains(&self, entity: Entity) -> bool {
        entity.index < self.entities@.len() && self.entities@[entity.index as int] is Some
    }

    /// What the store holds at each place after `system` has run over it.
    pub open spec fn after_system(
        &self,
        system: System,
        ticks: SystemChangeTick,
    ) -> Seq<Option<EasedEntity>> {
        Seq::new(
            self.entities@.len(),
            |i: int|
                match self.entities@[i] {
                    Some(entity) => Some(effect(system, entity, self.last_easing_tick, ticks)),
                    None => None,
                },
        )
    }

    /// Returns a store without entities, last eased at tick zero.
    pub fn new() -> (world: World)
        ensures
            world.entities@.len() == 0,
            world.last_easing_tick.tick == 0,
    {
        World { entities: Vec::new(), last_easing_tick: LastEasingTick::default() }
    }

    /// Puts an entity into the store and returns its name.
    pub fn spawn(&mut self, entity: EasedEntity) -> (name: Entity)
        ensures
            name.index == old(self).entities@.len(),
            final(self).entities@ == old(self).entities@.push(Some(entity)),
            final(self).last_easing_tick == old(self).last_easing_tick,
    {
        let index = self.entities.len();
        self.entities.push(Some(entity));
        Entity { index }
    }

    /// Removes an entity from the store and returns it, if it was there.
    pub fn despawn(&mut self, entity: Entity) -> (removed: Option<EasedEntity>)
        ensures
            removed == if old(self).contains(entity) {
                old(self).entities@[entity.index as int]
            } else {
                None
            },
            final(self).entities@ == if old(self).contains(entity) {
                old(self).entities@.update(entity.index as int, None)
            } else {
                old(self).entities@
            },
            final(self).last_easing_tick == old(self).last_easing_tick,
    {
        if entity.index >= self.entities.len() {
            return None;
        }
        let removed = self.entities[entity.index];
        if removed.is_some() {
            self.entities.set(entity.index, None);
        }
        removed
    }

    /// Returns the entity of that name, if it is in the store.
    pub fn get(&self, entity: Entity) -> (found: Option<EasedEntity>)
        ensures
            found == if self.contains(entity) {
                self.entities@[entity.index as int]
            } else {
                None
            },
    {
        if entity.index >= self.entities.len() {
            return None;
        }
        self.entities[entity.index]
    }

    /// Replaces the entity of that name and tells whether it was in the
    /// store. A name that is not in the store changes nothing.
    pub fn set(&mut self, entity: Entity, value: EasedEntity) -> (found: bool)
        ensures
            found == old(self).contains(entity),
            final(self).entities@ == if found {
                old(self).entities@.update(entity.index as int, Some(value))
            } else {
                old(self).entities@
            },
            final(self).last_easing_tick == old(self).last_easing_tick,
    {
        if entity.index >= self.entities.len() {
            return false;
        }
        if self.entities[entity.index].is_none() {
            return false;
        }
        self.entities.set(entity.index, Some(value));
        true
    }

    /// Runs one pass over every entity of the store and tells whether the
    /// pass was run. A pass that needs the host is not run: the store is
    /// left as it is, and the host runs the pass entity by entity. The pass
    /// that records the tick of the easing stores the tick of this run.
    pub fn run_system(&mut self, system: System, ticks: SystemChangeTick) -> (ran: bool)
        ensures
            ran == !needs_host(system),
            final(self).entities@ == old(self).after_system(system, ticks),
            final(self).last_easing_tick == if system == System::UpdateLastEasingTick {
                LastEasingTick { tick: ticks.this_run }
            } else {
                old(self).last_easing_tick
            },
    {
        match system {
            System::EaseTranslationLerp
            | System::EaseRotationSlerp
            | System::EaseScaleLerp
            | System::EaseTranslationHermite
            | System::EaseRotationHermite
            | System::UpdateTranslationExtrapolationStates
            | System::UpdateRotationExtrapolationStates => {
                assert(self.entities@ =~= self.after_system(system, ticks));
                return false;
            },
            System::UpdateLastEasingTick => {
                update_last_easing_tick(&mut self.last_easing_tick, ticks);
                assert(self.entities@ =~= old(self).after_system(system, ticks));
                return true;
            },
            _ => {},
        }
        let last_easing_tick = self.last_easing_tick;
        let mut i: usize = 0;
        while i < self.entities.len()
            invariant
                i <= self.entities.len(),
                self.entities@.len() == old(self).entities@.len(),
                self.last_easing_tick == old(self).last_easing_tick,
                last_easing_tick == old(self).last_easing_tick,
                forall|k: int|
                    0 <= k < i ==> self.entities@[k] == old(self).after_system(system, ticks)[k],
                forall|k: int|
                    i <= k < self.entities@.len() ==> self.entities@[k] == old(self).entities@[k],
            decreases self.entities.len() - i,
        {
            if let Some(mut entity) = self.entities[i] {
                run_on_entity(system, &mut entity, last_easing_tick, ticks);
                self.entities.set(i, Some(entity));
            }
            i += 1;
        }
        assert(self.entities@ =~= old(self).after_system(system, ticks));
        true
    }
}

} // verus!
