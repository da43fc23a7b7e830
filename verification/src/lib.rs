//! A small physically-animated dice simulation core.
//!
//! The library owns the game logic: the per-tick reroll action signal
//! derived from raw input samples, the registry of dice rigid bodies,
//! the random pose generator, and the reset transition that teleports
//! every die to a fresh randomized pose with zero velocity. Rendering,
//! input devices and rigid-body integration are outside collaborators
//! that drive this core through its public functions.

pub mod actions;
pub mod player;

use vstd::prelude::*;

use crate::actions::{set_movement_actions, spec_just_released, Actions, KeyState};
use crate::player::{freshly_reset, move_object, DiceRegistry};

verus! {

/// One whole simulation step of this core, in the fixed per-tick
/// order: record the tick's raw input sample, recompute the action
/// flags from the two most recent samples, then run the reset pass.
/// The reroll fires exactly on a held-to-released edge of the control;
/// on that tick every registered die gets a fresh independent pose and
/// zero velocities, and on every other tick the registry is left
/// untouched for the physics backend to integrate.
pub fn simulation_tick(
    registry: &mut DiceRegistry,
    key: &mut KeyState,
    actions: &mut Actions,
    sample: bool,
)
    ensures
        final(key).previous == old(key).current,
        final(key).current == sample,
        final(actions).reroll == spec_just_released(*final(key)),
        final(actions).reroll == (old(key).current && !sample),
        final(registry)@.len() == old(registry)@.len(),
        !final(actions).reroll ==> *final(registry) == *old(registry),
        final(actions).reroll ==> forall|i: int|
            0 <= i < old(registry)@.len() ==> freshly_reset(#[trigger] final(registry)@[i])
                && final(registry)@[i].half_extent == old(registry)@[i].half_extent,
        old(registry).wf() ==> final(registry).wf(),
{
    key.advance(sample);
    set_movement_actions(actions, key);
    move_object(registry, actions);
}

} // verus!
