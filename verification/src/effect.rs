//! Timed bundles of bonuses.

use vstd::prelude::*;
use crate::stats::BonusList;

verus! {

/// A bundle of bonuses that lasts for a time. It is due for removal once
/// `remaining_millis` has reached zero.
#[derive(Debug, Copy, Clone, PartialEq, Eq, Structural)]
pub struct Effect {
    pub bonuses: BonusList,
    pub duration_millis: u32,
    pub remaining_millis: u32,
}

impl Effect {
    /// The effect after `millis_elapsed` milliseconds have passed.
    pub open spec fn ticked(self, millis_elapsed: u32) -> Effect {
        Effect {
            remaining_millis: if millis_elapsed >= self.remaining_millis {
                0u32
            } else {
                (self.remaining_millis - millis_elapsed) as u32
            },
            ..self
        }
    }

    /// Whether the effect has run out.
    pub open spec fn expired(self) -> bool {
        self.remaining_millis == 0
    }

    /// An effect that gives `bonuses` for `duration_millis` milliseconds.
    pub fn new(bonuses: BonusList, duration_millis: u32) -> (effect: Effect)
        ensures
            effect == (Effect { bonuses, duration_millis, remaining_millis: duration_millis }),
    {
        Effect { bonuses, duration_millis, remaining_millis: duration_millis }
    }

    /// Lets `millis_elapsed` milliseconds pass.
    pub fn update(&mut self, millis_elapsed: u32)
        ensures
            *final(self) == old(self).ticked(millis_elapsed),
    {
        if millis_elapsed >= self.remaining_millis {
            self.remaining_millis = 0;
        } else {
            self.remaining_millis = self.remaining_millis - millis_elapsed;
        }
    }

    /// Whether the effect has run out and is to be removed.
    pub fn is_removal(&self) -> (due: bool)
        ensures
            due == self.expired(),
    {
        self.remaining_millis == 0
    }

    /// The bonuses that the effect gives while it lasts.
    pub fn bonuses(&self) -> (bonuses: &BonusList)
        ensures
            *bonuses == self.bonuses,
    {
        &self.bonuses
    }

    /// The time for which the effect was made to last.
    pub fn duration_millis(&self) -> (millis: u32)
        ensures
            millis == self.duration_millis,
    {
        self.duration_millis
    }
}

/// The effects of `effects` that are left after `millis_elapsed` milliseconds:
/// each one aged by that time, those that ran out taken away, the order kept.
pub open spec fn surviving(effects: Seq<Effect>, millis_elapsed: u32) -> Seq<Effect>
    decreases effects.len(),
{
    if effects.len() == 0 {
        Seq::<Effect>::empty()
    } else {
        let rest = surviving(effects.drop_last(), millis_elapsed);
        let aged = effects.last().ticked(millis_elapsed);
        if aged.expired() {
            rest
        } else {
            rest.push(aged)
        }
    }
}

/// The bonuses of the effects in `effects`, in their order.
pub open spec fn effect_bonuses(effects: Seq<Effect>) -> Seq<BonusList> {
    effects.map_values(|effect: Effect| effect.bonuses)
}

/// Ageing never adds an effect, and no effect that is left has run out.
pub proof fn lemma_surviving(effects: Seq<Effect>, millis_elapsed: u32)
    ensures
        surviving(effects, millis_elapsed).len() <= effects.len(),
        forall|i: int|
            0 <= i < surviving(effects, millis_elapsed).len() ==> !(#[trigger] surviving(
                effects,
                millis_elapsed,
            )[i]).expired(),
    decreases effects.len(),
{
    if effects.len() > 0 {
        lemma_surviving(effects.drop_last(), millis_elapsed);
    }
}

} // verus!
