//! The per-tick action signal.
//!
//! Raw input arrives as one boolean sample per simulation tick: whether
//! the mapped control is down on that tick. [`KeyState`] keeps the two
//! most recent samples, and the reroll action fires exactly on the tick
//! where the control goes from held to released, never while it is held
//! and never twice for one release.

use vstd::prelude::*;

verus! {

/// The two most recent raw-input samples of the mapped control:
/// `current` is this tick's sample, `previous` the one before it.
#[derive(Clone, Copy, Debug, PartialEq, Eq, Structural)]
pub struct KeyState {
    pub previous: bool,
    pub current: bool,
}

/// True when the control is down on the current tick.
pub open spec fn spec_pressed(k: KeyState) -> bool {
    k.current
}

/// True exactly on the tick where the control went down.
pub open spec fn spec_just_pressed(k: KeyState) -> bool {
    k.current && !k.previous
}

/// True exactly on the tick where the control was let go.
pub open spec fn spec_just_released(k: KeyState) -> bool {
    k.previous && !k.current
}

/// The sampler state after feeding a whole history of per-tick samples
/// to a sampler that starts with the control up on both slots.
pub open spec fn state_after(samples: Seq<bool>) -> KeyState
    decreases samples.len(),
{
    if samples.len() == 0 {
        KeyState { previous: false, current: false }
    } else {
        KeyState { previous: state_after(samples.drop_last()).current, current: samples.last() }
    }
}

impl KeyState {
    /// A sampler that has seen no input yet: the control counts as up.
    pub fn new() -> (r: KeyState)
        ensures
            !r.previous,
            !r.current,
            r == state_after(Seq::<bool>::empty()),
    {
        KeyState { previous: false, current: false }
    }

    /// Record this tick's raw sample, shifting the last one back.
    pub fn advance(&mut self, sample: bool)
        ensures
            final(self).previous == old(self).current,
            final(self).current == sample,
    {
        self.previous = self.current;
        self.current = sample;
    }

    /// The control is down on the current tick.
    pub fn pressed(&self) -> (r: bool)
        ensures
            r == spec_pressed(*self),
    {
        self.current
    }

    /// The control went down on the current tick.
    pub fn just_pressed(&self) -> (r: bool)
        ensures
            r == spec_just_pressed(*self),
    {
        self.current && !self.previous
    }

    /// The control was let go on the current tick.
    pub fn just_released(&self) -> (r: bool)
        ensures
            r == spec_just_released(*self),
    {
        self.previous && !self.current
    }
}

/// The controls of the game, each mapped by the surrounding input layer
/// to one sampled key.
pub enum GameControl {
    Reroll,
}

impl GameControl {
    /// The mapped control was let go on the current tick.
    pub fn just_released(&self, input: &KeyState) -> (r: bool)
        ensures
            r == spec_just_released(*input),
    {
        match self {
            GameControl::Reroll => input.just_released(),
        }
    }

    /// The mapped control is down on the current tick.
    pub fn pressed(&self, input: &KeyState) -> (r: bool)
        ensures
            r == spec_pressed(*input),
    {
        match self {
            GameControl::Reroll => input.pressed(),
        }
    }

    /// The mapped control went down on the current tick.
    pub fn just_pressed(&self, input: &KeyState) -> (r: bool)
        ensures
            r == spec_just_pressed(*input),
    {
        match self {
            GameControl::Reroll => input.just_pressed(),
        }
    }
}

/// The action flags derived from raw input, recomputed once per tick.
#[derive(Clone, Copy, Debug, PartialEq, Eq, Structural)]
pub struct Actions {
    pub reroll: bool,
}

impl Default for Actions {
    /// At rest no action is pending.
    fn default() -> (r: Actions)
        ensures
            !r.reroll,
    {
        Actions { reroll: false }
    }
}

/// Recompute the action flags for this tick: `reroll` is set exactly
/// when the mapped control was let go on this tick, and cleared on
/// every other tick, with no carry-over from earlier ticks.
pub fn set_movement_actions(actions: &mut Actions, input: &KeyState)
    ensures
        final(actions).reroll == spec_just_released(*input),
{
    if GameControl::Reroll.just_released(input) {
        actions.reroll = true;
    } else {
        actions.reroll = false;
    }
}

/// After any non-empty run of samples the sampler's current slot holds
/// the last sample of the run.
pub proof fn lemma_state_after_current(samples: Seq<bool>)
    requires
        samples.len() >= 1,
    ensures
        state_after(samples).current == samples.last(),
{
}

/// Advancing the sampler by one tick's sample is the same as extending
/// the history by that sample: together with the contract of
/// [`KeyState::advance`], a sampler fed a run of samples one tick at a
/// time ends in `state_after` of that run.
pub proof fn lemma_advance_matches_history(samples: Seq<bool>, next: bool)
    ensures
        state_after(samples.push(next)) == (KeyState {
            previous: state_after(samples).current,
            current: next,
        }),
{
    assert(samples.push(next).drop_last() =~= samples);
}

/// The reroll signal fires after a run of samples exactly when the run
/// is at least two ticks long, the control was down on the tick before
/// the last one, and up on the last one: a press-then-release edge. In
/// particular it never fires while the control is continuously held.
pub proof fn lemma_signal_edge(samples: Seq<bool>)
    requires
        samples.len() >= 1,
    ensures
        spec_just_released(state_after(samples)) <==> (samples.len() >= 2
            && samples[samples.len() - 2] && !samples.last()),
{
    lemma_state_after_current(samples);
    if samples.len() >= 2 {
        lemma_state_after_current(samples.drop_last());
        assert(samples.drop_last().last() == samples[samples.len() - 2]);
    } else {
        assert(state_after(samples.drop_last()) == (KeyState { previous: false, current: false }));
    }
}

/// One release fires the reroll signal on a single tick only: if it
/// fires after some run of samples, it cannot fire again on the very
/// next tick, whatever that tick's sample is.
pub proof fn lemma_no_double_fire(samples: Seq<bool>, next: bool)
    requires
        samples.len() >= 1,
        spec_just_released(state_after(samples)),
    ensures
        !spec_just_released(state_after(samples.push(next))),
{
    lemma_state_after_current(samples);
    assert(samples.push(next).drop_last() =~= samples);
}

} // verus!
