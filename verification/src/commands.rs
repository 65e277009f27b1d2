//! Commands that a host applies to an eased entity on purpose.

use crate::easing::{all_easing_cleared, reset_easing};
use crate::world::{Entity, World};
use vstd::prelude::*;

verus! {

/// Resets the easing states of an entity.
///
/// This switches easing off for the remainder of the current fixed step, so
/// that the transform of the entity can be set freely without being eased.
#[derive(Clone, Copy, Debug, PartialEq, Eq, Structural)]
pub struct ResetEasing(pub Entity);

impl ResetEasing {
    /// Clears every easing state that the entity has. An entity that is not
    /// in the store changes nothing, and no other entity is touched.
    pub fn apply(self, world: &mut World)
        ensures
            final(world).entities@ == if old(world).contains(self.0) {
                old(world).entities@.update(
                    self.0.index as int,
                    Some(all_easing_cleared(old(world).entities@[self.0.index as int]->Some_0)),
                )
            } else {
                old(world).entities@
            },
            final(world).last_easing_tick == old(world).last_easing_tick,
    {
        let Some(mut entity) = world.get(self.0) else {
            return ;
        };
        reset_easing(&mut entity);
        world.set(self.0, entity);
    }
}

} // verus!
