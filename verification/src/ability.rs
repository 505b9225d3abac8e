//! Authored abilities and the per actor record of their cooldown.

use vstd::prelude::*;

verus! {

/// What makes an ability activatable: its script, what activating it costs in
/// action points, and how many milliseconds it stays on cooldown afterwards.
#[derive(Debug, PartialEq, Eq)]
pub struct Active {
    pub script: String,
    pub ap: u32,
    pub duration: u32,
}

/// An authored ability. One without an `active` part is passive.
#[derive(Debug, PartialEq, Eq)]
pub struct Ability {
    pub id: String,
    pub name: String,
    pub active: Option<Active>,
}

impl Clone for Active {
    fn clone(&self) -> (copy: Self)
        ensures
            copy == *self,
    {
        Active { script: self.script.clone(), ap: self.ap, duration: self.duration }
    }
}

impl Clone for Ability {
    fn clone(&self) -> (copy: Self)
        ensures
            copy == *self,
    {
        let active = match &self.active {
            Some(active) => Some(active.clone()),
            None => None,
        };
        Ability { id: self.id.clone(), name: self.name.clone(), active }
    }
}

/// The cooldown of one activatable ability of one actor. The ability is
/// available while `remaining_duration` is zero.
#[derive(Debug, PartialEq, Eq)]
pub struct AbilityState {
    pub ability_id: String,
    pub activate_ap: u32,
    pub duration: u32,
    pub remaining_duration: u32,
}

impl Clone for AbilityState {
    fn clone(&self) -> (copy: Self)
        ensures
            copy == *self,
    {
        AbilityState {
            ability_id: self.ability_id.clone(),
            activate_ap: self.activate_ap,
            duration: self.duration,
            remaining_duration: self.remaining_duration,
        }
    }
}

impl AbilityState {
    /// The state as it is right after activation: the whole cooldown is
    /// still to run.
    pub open spec fn activated(self) -> AbilityState {
        AbilityState { remaining_duration: self.duration, ..self }
    }

    /// The state after `millis_elapsed` milliseconds have passed.
    pub open spec fn ticked(self, millis_elapsed: u32) -> AbilityState {
        AbilityState {
            remaining_duration: if millis_elapsed >= self.remaining_duration {
                0u32
            } else {
                (self.remaining_duration - millis_elapsed) as u32
            },
            ..self
        }
    }

    /// A fresh state for `ability`, available at once. A passive ability has
    /// no state.
    pub fn new(ability: &Ability) -> (state: Option<AbilityState>)
        ensures
            state is Some <==> ability.active is Some,
            state matches Some(s) ==> {
                &&& s.ability_id == ability.id
                &&& s.activate_ap == ability.active->0.ap
                &&& s.duration == ability.active->0.duration
                &&& s.remaining_duration == 0
            },
    {
        match &ability.active {
            None => None,
            Some(active) => Some(
                AbilityState {
                    ability_id: ability.id.clone(),
                    activate_ap: active.ap,
                    duration: active.duration,
                    remaining_duration: 0,
                },
            ),
        }
    }

    /// The action points that activating the ability costs.
    pub fn activate_ap(&self) -> (ap: u32)
        ensures
            ap == self.activate_ap,
    {
        self.activate_ap
    }

    /// Whether the ability is off cooldown.
    pub fn is_available(&self) -> (available: bool)
        ensures
            available == (self.remaining_duration == 0),
    {
        self.remaining_duration == 0
    }

    /// Starts the cooldown.
    pub fn activate(&mut self)
        ensures
            *final(self) == old(self).activated(),
    {
        self.remaining_duration = self.duration;
    }

    /// Lets `millis_elapsed` milliseconds of the cooldown pass.
    pub fn update(&mut self, millis_elapsed: u32)
        ensures
            *final(self) == old(self).ticked(millis_elapsed),
    {
        if millis_elapsed >= self.remaining_duration {
            self.remaining_duration = 0;
        } else {
            self.remaining_duration = self.remaining_duration - millis_elapsed;
        }
    }
}

/// A cooldown that is started runs out after exactly its duration: the
/// ability is available again once that many milliseconds have passed, and
/// not before.
pub proof fn lemma_cooldown_runs_out(state: AbilityState, millis_elapsed: u32)
    ensures
        state.activated().ticked(millis_elapsed).remaining_duration == 0 <==> millis_elapsed
            >= state.duration,
{
}

} // verus!
