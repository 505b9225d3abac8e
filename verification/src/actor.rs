//! The live state of one actor: hit points, action points, experience,
//! inventory, effects and ability cooldowns, and the stats derived from them.

use vstd::prelude::*;
use crate::ability::{Ability, AbilityState};
use crate::attribute::AttributeList;
use crate::effect::{effect_bonuses, surviving, Effect};
use crate::inventory::{Inventory, Item, Slot, Slots};
use crate::loot::LootTable;
use crate::prop::PropState;
use crate::rules::Rules;
use crate::search::{
    first_index, lemma_first_index, lemma_first_index_found, lemma_first_index_skip,
};
use crate::stats::{blank, computed, BonusList, ClassLevels, StatList, StatListView};
use crate::text::str_eq;

verus! {

/// What slaying an actor yields: experience, and loot with a chance given in
/// percent.
#[derive(Debug, Clone, PartialEq, Eq)]
pub struct Reward {
    pub xp: u32,
    pub loot: Option<LootTable>,
    pub loot_chance: u32,
}

/// An authored actor.
#[derive(Debug, Clone, PartialEq, Eq)]
pub struct Actor {
    pub id: String,
    pub name: String,
    pub attributes: AttributeList,
    /// The base bonuses of the actor's race.
    pub race: BonusList,
    pub levels: Vec<ClassLevels>,
    pub total_level: u32,
    pub abilities: Vec<Ability>,
    pub xp: u32,
    pub items: Vec<Item>,
    /// The indices of the items that the actor wears from the start.
    pub to_equip: Vec<usize>,
    pub reward: Option<Reward>,
}

/// Whether a state belongs to the ability `id`.
pub open spec fn is_state_of(id: Seq<char>) -> spec_fn(AbilityState) -> bool {
    |state: AbilityState| state.ability_id@ == id
}

/// The index of the first state in `states` that belongs to the ability `id`.
pub open spec fn find_state(states: Seq<AbilityState>, id: Seq<char>) -> Option<int> {
    first_index(states, is_state_of(id))
}

/// The state of the ability `id` among `states`, if it has one.
pub open spec fn state_of(states: Seq<AbilityState>, id: Seq<char>) -> Option<AbilityState> {
    match find_state(states, id) {
        Some(index) => Some(states[index]),
        None => None,
    }
}

/// Whether an ability has the id `id`.
pub open spec fn has_id(id: Seq<char>) -> spec_fn(Ability) -> bool {
    |ability: Ability| ability.id@ == id
}

/// The first ability of `abilities` with the id `id`.
pub open spec fn ability_named(abilities: Seq<Ability>, id: Seq<char>) -> Option<Ability> {
    match first_index(abilities, has_id(id)) {
        Some(index) => Some(abilities[index]),
        None => None,
    }
}

/// A fresh state for an activatable ability.
pub open spec fn fresh_state(ability: Ability) -> AbilityState {
    AbilityState {
        ability_id: ability.id,
        activate_ap: ability.active->0.ap,
        duration: ability.active->0.duration,
        remaining_duration: 0,
    }
}

/// `states` with a fresh state for each activatable ability of `abilities`
/// that has none yet. A state that is there already is kept as it is.
pub open spec fn with_states_for(states: Seq<AbilityState>, abilities: Seq<Ability>) -> Seq<
    AbilityState,
>
    decreases abilities.len(),
{
    if abilities.len() == 0 {
        states
    } else {
        let earlier = with_states_for(states, abilities.drop_last());
        let ability = abilities.last();
        if ability.active is Some && find_state(earlier, ability.id@) is None {
            earlier.push(fresh_state(ability))
        } else {
            earlier
        }
    }
}

/// Whether no two states of `states` belong to the same ability.
pub open spec fn distinct_ids(states: Seq<AbilityState>) -> bool {
    forall|i: int, j: int|
        0 <= i < j < states.len() ==> (#[trigger] states[i]).ability_id@ != (
        #[trigger] states[j]).ability_id@
}

/// Adding the states that are missing never gives an ability a second
/// state.
pub proof fn lemma_with_states_for_distinct(states: Seq<AbilityState>, abilities: Seq<Ability>)
    requires
        distinct_ids(states),
    ensures
        distinct_ids(with_states_for(states, abilities)),
    decreases abilities.len(),
{
    if abilities.len() > 0 {
        let earlier = with_states_for(states, abilities.drop_last());
        let ability = abilities.last();
        lemma_with_states_for_distinct(states, abilities.drop_last());
        if ability.active is Some && find_state(earlier, ability.id@) is None {
            lemma_first_index(earlier, is_state_of(ability.id@));
            let grown = earlier.push(fresh_state(ability));
            assert forall|i: int, j: int| 0 <= i < j < grown.len() implies (
            #[trigger] grown[i]).ability_id@ != (#[trigger] grown[j]).ability_id@ by {
                if j < earlier.len() {
                    assert(grown[i] == earlier[i] && grown[j] == earlier[j]);
                } else {
                    assert(grown[i] == earlier[i]);
                    assert(!is_state_of(ability.id@)(earlier[i]));
                }
            }
        }
    }
}

/// The slots after the items at `to_equip` have been equipped one by one.
pub open spec fn equipped_all(items: Seq<Item>, slots: Slots, to_equip: Seq<usize>) -> Slots
    decreases to_equip.len(),
{
    if to_equip.len() == 0 {
        slots
    } else {
        Inventory::slots_after_equip(
            items,
            equipped_all(items, slots, to_equip.drop_last()),
            to_equip.last(),
        )
    }
}

/// The hit points left of `hp` after `damage` has been taken: never less
/// than none.
pub open spec fn hp_after(hp: i32, damage: u32) -> i32 {
    if damage > hp {
        0
    } else {
        (hp - damage) as i32
    }
}

/// The action points left of `ap` after `spent` have been spent.
pub open spec fn ap_after(ap: u32, spent: u32) -> u32 {
    if spent > ap {
        0
    } else {
        (ap - spent) as u32
    }
}

/// The experience after `gained` has been added to `xp`. Experience stops
/// growing at the largest `u32`.
pub open spec fn xp_after(xp: u32, gained: u32) -> u32 {
    if xp + gained > u32::MAX {
        u32::MAX
    } else {
        (xp + gained) as u32
    }
}

/// Whether `after` is `before` with nothing changed but the items held.
pub open spec fn same_but_items(before: ActorState, after: ActorState) -> bool {
    &&& after.inventory.equipped == before.inventory.equipped
    &&& after.actor == before.actor
    &&& after.stats == before.stats
    &&& after.hp == before.hp
    &&& after.ap == before.ap
    &&& after.xp == before.xp
    &&& after.has_level_up == before.has_level_up
    &&& after.effects == before.effects
    &&& after.ability_states == before.ability_states
}

/// Whether `actor_after` and `prop_after` are what `actor` and `prop` become
/// when the actor takes every item of the prop: the prop is left empty, and
/// its items stand behind those that the actor held, the last item of the
/// prop first. `taken` says whether there was anything to take.
pub open spec fn took_all(
    actor: ActorState,
    prop: PropState,
    actor_after: ActorState,
    prop_after: PropState,
    taken: bool,
) -> bool {
    &&& taken == (prop.items@.len() > 0)
    &&& prop_after.items@.len() == 0
    &&& prop_after.prop_id == prop.prop_id
    &&& prop_after.location == prop.location
    &&& actor_after.inventory.items@ == actor.inventory.items@ + prop.items@.reverse()
    &&& same_but_items(actor, actor_after)
}

/// Whether `actor_after` and `prop_after` are what `actor` and `prop` become
/// when the actor takes the item at `item_index` of the prop. `taken` says
/// whether there was such an item; where there was none, nothing changes.
pub open spec fn took(
    actor: ActorState,
    prop: PropState,
    actor_after: ActorState,
    prop_after: PropState,
    item_index: usize,
    taken: bool,
) -> bool {
    &&& taken == (item_index < prop.items@.len())
    &&& taken ==> prop_after.items@ == prop.items@.remove(item_index as int)
        && actor_after.inventory.items@ == actor.inventory.items@.push(
        prop.items@[item_index as int],
    )
    &&& !taken ==> prop_after.items == prop.items && actor_after.inventory.items
        == actor.inventory.items
    &&& prop_after.prop_id == prop.prop_id
    &&& prop_after.location == prop.location
    &&& same_but_items(actor, actor_after)
}

/// The live state of an actor.
#[derive(Debug, Clone, PartialEq, Eq)]
pub struct ActorState {
    pub actor: Actor,
    pub stats: StatList,
    pub hp: i32,
    pub ap: u32,
    pub xp: u32,
    pub has_level_up: bool,
    pub inventory: Inventory,
    pub effects: Vec<Effect>,
    pub ability_states: Vec<AbilityState>,
}

/// The bonuses of the effects in `effects`, in their order.
fn collect_effect_bonuses(effects: &Vec<Effect>) -> (bonuses: Vec<BonusList>)
    ensures
        bonuses@ == effect_bonuses(effects@),
{
    let mut bonuses: Vec<BonusList> = Vec::new();
    let mut i: usize = 0;
    while i < effects.len()
        invariant
            0 <= i <= effects.len(),
            bonuses@.len() == i,
            forall|k: int| 0 <= k < i ==> bonuses@[k] == effects@[k].bonuses,
        decreases effects.len() - i,
    {
        bonuses.push(effects[i].bonuses);
        i += 1;
    }
    bonuses
}

/// Adds to `states` a fresh state for each activatable ability of
/// `abilities` that has none yet.
fn add_states_for(states: &mut Vec<AbilityState>, abilities: &Vec<Ability>)
    ensures
        final(states)@ == with_states_for(old(states)@, abilities@),
{
    let mut i: usize = 0;
    while i < abilities.len()
        invariant
            0 <= i <= abilities.len(),
            states@ == with_states_for(old(states)@, abilities@.take(i as int)),
        decreases abilities.len() - i,
    {
        proof {
            assert(abilities@.take(i + 1).drop_last() =~= abilities@.take(i as int));
        }
        let ability = &abilities[i];
        if find_in(states, ability.id.as_str()).is_none() {
            match AbilityState::new(ability) {
                Some(state) => {
                    states.push(state);
                },
                None => {},
            }
        }
        i += 1;
    }
    assert(abilities@.take(i as int) =~= abilities@);
}

/// The index of the first state in `states` that belongs to the ability `id`.
fn find_in(states: &Vec<AbilityState>, id: &str) -> (found: Option<usize>)
    ensures
        match found {
            Some(index) => find_state(states@, id@) == Some(index as int) && index < states@.len(),
            None => find_state(states@, id@) is None,
        },
{
    let mut i: usize = 0;
    while i < states.len()
        invariant
            0 <= i <= states.len(),
            first_index(states@.take(i as int), is_state_of(id@)) is None,
        decreases states.len() - i,
    {
        if str_eq(states[i].ability_id.as_str(), id) {
            proof {
                lemma_first_index_found(states@, i as int, is_state_of(id@));
            }
            return Some(i);
        }
        proof {
            lemma_first_index_skip(states@, i as int, is_state_of(id@));
        }
        i += 1;
    }
    assert(states@.take(i as int) =~= states@);
    None
}

impl ActorState {
    /// The stats that the actor, its worn items and its effects determine.
    pub open spec fn derived(self, rules: Rules) -> StatListView {
        computed(
            self.actor.attributes,
            self.actor.race,
            self.actor.levels@,
            self.inventory.spec_equipped_bonuses(),
            effect_bonuses(self.effects@),
            rules,
        )
    }

    /// Whether the experience suffices for the next level.
    pub open spec fn level_up_due(self, rules: Rules) -> bool {
        match rules.spec_xp_for_next_level(self.actor.total_level) {
            Some(needed) => needed <= self.xp,
            None => false,
        }
    }

    /// Whether `self` is `before` with stats and level-up flag computed
    /// afresh and nothing else changed.
    pub open spec fn recomputed_from(self, before: ActorState, rules: Rules) -> bool {
        &&& self.stats@ == before.derived(rules)
        &&& self.has_level_up == before.level_up_due(rules)
        &&& self.actor == before.actor
        &&& self.hp == before.hp
        &&& self.ap == before.ap
        &&& self.xp == before.xp
        &&& self.inventory == before.inventory
        &&& self.effects == before.effects
        &&& self.ability_states == before.ability_states
    }

    /// Whether no ability has more than one state. The states stand for a
    /// map from the id of an ability to its state; every function here
    /// that changes them keeps them so.
    pub open spec fn states_distinct(self) -> bool {
        distinct_ids(self.ability_states@)
    }

    /// Whether the ability `id` can be activated: it has a state, the action
    /// points cover its cost, and it is off cooldown.
    pub open spec fn spec_can_activate(self, id: Seq<char>) -> bool {
        match state_of(self.ability_states@, id) {
            None => false,
            Some(state) => self.ap >= state.activate_ap && state.remaining_duration == 0,
        }
    }

    /// The state of a newly created actor: no hit points and no action
    /// points yet, the experience of the authored actor, its items with the
    /// starting equipment worn, a fresh state for each activatable ability,
    /// and stats that are still to be computed.
    pub fn new(actor: Actor) -> (state: ActorState)
        ensures
            state.actor == actor,
            state.hp == 0,
            state.ap == 0,
            state.xp == actor.xp,
            !state.has_level_up,
            state.effects@.len() == 0,
            state.stats@ == blank(actor.attributes),
            state.inventory.items@ == actor.items@,
            state.inventory.equipped == equipped_all(
                actor.items@,
                Slots::spec_empty(),
                actor.to_equip@,
            ),
            state.ability_states@ == with_states_for(
                Seq::<AbilityState>::empty(),
                actor.abilities@,
            ),
            state.states_distinct(),
    {
        proof {
            lemma_with_states_for_distinct(Seq::<AbilityState>::empty(), actor.abilities@);
        }
        let items = actor.items.clone();
        let mut inventory = Inventory::new(items);
        let mut i: usize = 0;
        while i < actor.to_equip.len()
            invariant
                0 <= i <= actor.to_equip.len(),
                inventory.items@ == actor.items@,
                inventory.equipped == equipped_all(
                    actor.items@,
                    Slots::spec_empty(),
                    actor.to_equip@.take(i as int),
                ),
            decreases actor.to_equip.len() - i,
        {
            proof {
                assert(actor.to_equip@.take(i + 1).drop_last() =~= actor.to_equip@.take(i as int));
            }
            inventory.equip(actor.to_equip[i]);
            i += 1;
        }
        assert(actor.to_equip@.take(i as int) =~= actor.to_equip@);
        let mut ability_states: Vec<AbilityState> = Vec::new();
        add_states_for(&mut ability_states, &actor.abilities);
        let xp = actor.xp;
        let stats = StatList::new(actor.attributes);
        ActorState {
            actor,
            stats,
            hp: 0,
            ap: 0,
            xp,
            has_level_up: false,
            inventory,
            effects: Vec::new(),
            ability_states,
        }
    }

    /// The authored ability with the id `id`, if the actor has one.
    pub fn find_ability(&self, id: &str) -> (found: Option<&Ability>)
        ensures
            match found {
                Some(ability) => ability_named(self.actor.abilities@, id@) == Some(*ability),
                None => ability_named(self.actor.abilities@, id@) is None,
            },
    {
        let mut i: usize = 0;
        while i < self.actor.abilities.len()
            invariant
                0 <= i <= self.actor.abilities.len(),
                first_index(self.actor.abilities@.take(i as int), has_id(id@)) is None,
            decreases self.actor.abilities.len() - i,
        {
            if str_eq(self.actor.abilities[i].id.as_str(), id) {
                proof {
                    lemma_first_index_found(self.actor.abilities@, i as int, has_id(id@));
                }
                let found = &self.actor.abilities[i];
                return Some(found);
            }
            proof {
                lemma_first_index_skip(self.actor.abilities@, i as int, has_id(id@));
            }
            i += 1;
        }
        assert(self.actor.abilities@.take(i as int) =~= self.actor.abilities@);
        None
    }

    /// The state of the ability `id`, if the actor has one.
    pub fn get_ability_state(&self, id: &str) -> (state: Option<&AbilityState>)
        ensures
            match state {
                Some(s) => state_of(self.ability_states@, id@) == Some(*s),
                None => state_of(self.ability_states@, id@) is None,
            },
    {
        match find_in(&self.ability_states, id) {
            Some(index) => Some(&self.ability_states[index]),
            None => None,
        }
    }

    /// The state of the ability `id`, if the actor has one, for changing it
    /// in place. Nothing but that state can change through what is handed
    /// out.
    pub fn ability_state(&mut self, id: &str) -> (state: Option<&mut AbilityState>)
        ensures
            match find_state(old(self).ability_states@, id@) {
                Some(index) => {
                    &&& state is Some
                    &&& *state->0 == old(self).ability_states@[index]
                    &&& final(self).ability_states@ == old(self).ability_states@.update(
                        index,
                        *final(state->0),
                    )
                },
                None => state is None && final(self).ability_states == old(self).ability_states,
            },
            final(self).actor == old(self).actor,
            final(self).stats == old(self).stats,
            final(self).hp == old(self).hp,
            final(self).ap == old(self).ap,
            final(self).xp == old(self).xp,
            final(self).has_level_up == old(self).has_level_up,
            final(self).inventory == old(self).inventory,
            final(self).effects == old(self).effects,
    {
        match find_in(&self.ability_states, id) {
            Some(index) => Some(&mut self.ability_states[index]),
            None => None,
        }
    }

    /// Whether the ability `id` can be activated.
    pub fn can_activate(&self, id: &str) -> (can: bool)
        ensures
            can == self.spec_can_activate(id@),
    {
        match find_in(&self.ability_states, id) {
            None => false,
            Some(index) => {
                let state = &self.ability_states[index];
                if self.ap < state.activate_ap() {
                    return false;
                }
                state.is_available()
            },
        }
    }

    /// Starts the cooldown of the ability `id`. Does nothing when the actor
    /// has no state for it.
    pub fn activate_ability_state(&mut self, id: &str)
        ensures
            match find_state(old(self).ability_states@, id@) {
                Some(index) => final(self).ability_states@ == old(self).ability_states@.update(
                    index,
                    old(self).ability_states@[index].activated(),
                ),
                None => final(self).ability_states == old(self).ability_states,
            },
            final(self).actor == old(self).actor,
            final(self).stats == old(self).stats,
            final(self).hp == old(self).hp,
            final(self).ap == old(self).ap,
            final(self).xp == old(self).xp,
            final(self).has_level_up == old(self).has_level_up,
            final(self).inventory == old(self).inventory,
            final(self).effects == old(self).effects,
            old(self).states_distinct() ==> final(self).states_distinct(),
    {
        match find_in(&self.ability_states, id) {
            None => {},
            Some(index) => {
                self.ability_states[index].activate();
            },
        }
    }

    /// The effects that are active on the actor.
    pub fn effects_iter(&self) -> (effects: &Vec<Effect>)
        ensures
            *effects == self.effects,
    {
        &self.effects
    }

    /// The items of the actor.
    pub fn inventory(&self) -> (inventory: &Inventory)
        ensures
            *inventory == self.inventory,
    {
        &self.inventory
    }

    /// Whether the actor has no hit points left.
    pub fn is_dead(&self) -> (dead: bool)
        ensures
            dead == (self.hp <= 0),
    {
        self.hp <= 0
    }

    /// Whether the experience suffices for the next level, as of the last
    /// computation of the stats.
    pub fn has_level_up(&self) -> (due: bool)
        ensures
            due == self.has_level_up,
    {
        self.has_level_up
    }

    /// The experience of the actor.
    pub fn xp(&self) -> (xp: u32)
        ensures
            xp == self.xp,
    {
        self.xp
    }

    /// The hit points of the actor.
    pub fn hp(&self) -> (hp: i32)
        ensures
            hp == self.hp,
    {
        self.hp
    }

    /// The action points of the actor.
    pub fn ap(&self) -> (ap: u32)
        ensures
            ap == self.ap,
    {
        self.ap
    }

    /// What moving over `squares` tiles costs in action points.
    pub fn get_move_ap_cost(&self, rules: &Rules, squares: u32) -> (cost: u32)
        requires
            rules.movement_ap * squares <= u32::MAX,
        ensures
            cost == rules.movement_ap * squares,
    {
        rules.movement_ap * squares
    }

    /// Whether the actor can attack a target that is or is not within its
    /// reach: it needs the action points of an attack.
    pub fn can_attack(&self, rules: &Rules, in_reach: bool) -> (can: bool)
        ensures
            can == (self.ap >= rules.attack_ap && in_reach),
    {
        if self.ap < rules.attack_ap {
            return false;
        }
        in_reach
    }

    /// Spends `ap` action points, or all that are left where these are fewer.
    pub fn remove_ap(&mut self, ap: u32)
        ensures
            *final(self) == (ActorState { ap: ap_after(old(self).ap, ap), ..*old(self) }),
    {
        if ap > self.ap {
            self.ap = 0;
        } else {
            self.ap -= ap;
        }
    }

    /// Takes `hp` hit points away, or all that are left where these are
    /// fewer.
    pub fn remove_hp(&mut self, hp: u32)
        ensures
            *final(self) == (ActorState { hp: hp_after(old(self).hp, hp), ..*old(self) }),
    {
        if hp as i64 > self.hp as i64 {
            self.hp = 0;
        } else {
            self.hp = (self.hp as i64 - hp as i64) as i32;
        }
    }

    /// Computes stats and level-up flag afresh from the actor, the worn
    /// items, the active effects and the experience. Nothing else changes,
    /// so that computing once more changes nothing at all.
    pub fn compute_stats(&mut self, rules: &Rules)
        ensures
            final(self).recomputed_from(*old(self), *rules),
    {
        let equipped = self.inventory.equipped_bonuses();
        let effects = collect_effect_bonuses(&self.effects);
        self.stats = StatList::compute(
            self.actor.attributes,
            &self.actor.race,
            &self.actor.levels,
            &equipped,
            &effects,
            rules,
        );
        self.has_level_up = match rules.get_xp_for_next_level(self.actor.total_level) {
            Some(needed) => needed <= self.xp,
            None => false,
        };
    }

    /// Adds experience and computes the stats afresh.
    pub fn add_xp(&mut self, xp: u32, rules: &Rules)
        ensures
            final(self).recomputed_from(
                ActorState { xp: xp_after(old(self).xp, xp), ..*old(self) },
                *rules,
            ),
    {
        self.xp = self.xp.saturating_add(xp);
        self.compute_stats(rules);
    }

    /// Puts an effect on the actor, behind those already active, and
    /// computes the stats afresh.
    pub fn add_effect(&mut self, effect: Effect, rules: &Rules)
        ensures
            final(self).effects@ == old(self).effects@.push(effect),
            final(self).stats@ == final(self).derived(*rules),
            final(self).has_level_up == old(self).level_up_due(*rules),
            final(self).actor == old(self).actor,
            final(self).hp == old(self).hp,
            final(self).ap == old(self).ap,
            final(self).xp == old(self).xp,
            final(self).inventory == old(self).inventory,
            final(self).ability_states == old(self).ability_states,
    {
        self.effects.push(effect);
        self.compute_stats(rules);
    }

    /// Puts on the item at `index` and computes the stats afresh. Says
    /// whether the item could be put on.
    pub fn equip(&mut self, index: usize, rules: &Rules) -> (done: bool)
        ensures
            done <==> index < old(self).inventory.items@.len()
                && old(self).inventory.items@[index as int].equippable is Some,
            final(self).inventory.items == old(self).inventory.items,
            final(self).inventory.equipped == Inventory::slots_after_equip(
                old(self).inventory.items@,
                old(self).inventory.equipped,
                index,
            ),
            final(self).stats@ == final(self).derived(*rules),
            final(self).has_level_up == old(self).level_up_due(*rules),
            final(self).actor == old(self).actor,
            final(self).hp == old(self).hp,
            final(self).ap == old(self).ap,
            final(self).xp == old(self).xp,
            final(self).effects == old(self).effects,
            final(self).ability_states == old(self).ability_states,
    {
        let done = self.inventory.equip(index);
        self.compute_stats(rules);
        done
    }

    /// Takes off what is worn in `slot` and computes the stats afresh. Says
    /// whether anything was worn there.
    pub fn unequip(&mut self, slot: Slot, rules: &Rules) -> (done: bool)
        ensures
            done <==> old(self).inventory.equipped.at(slot) is Some,
            final(self).inventory.items == old(self).inventory.items,
            final(self).inventory.equipped == old(self).inventory.equipped.with(slot, None),
            final(self).stats@ == final(self).derived(*rules),
            final(self).has_level_up == old(self).level_up_due(*rules),
            final(self).actor == old(self).actor,
            final(self).hp == old(self).hp,
            final(self).ap == old(self).ap,
            final(self).xp == old(self).xp,
            final(self).effects == old(self).effects,
            final(self).ability_states == old(self).ability_states,
    {
        let done = self.inventory.unequip(slot);
        self.compute_stats(rules);
        done
    }

    /// Fills the hit points up to their maximum.
    pub fn init(&mut self)
        ensures
            *final(self) == (ActorState { hp: old(self).stats.max_hp, ..*old(self) }),
    {
        self.hp = self.stats.max_hp;
    }

    /// Gives the actor the action points of a new turn. Says whether that
    /// changed anything.
    pub fn init_turn(&mut self, rules: &Rules) -> (changed: bool)
        ensures
            *final(self) == (ActorState { ap: rules.base_ap, ..*old(self) }),
            changed == (old(self).ap != rules.base_ap),
    {
        if self.ap != rules.base_ap {
            self.ap = rules.base_ap;
            true
        } else {
            false
        }
    }

    /// Takes the remaining action points away at the end of a turn. Says
    /// whether that changed anything.
    pub fn end_turn(&mut self) -> (changed: bool)
        ensures
            *final(self) == (ActorState { ap: 0, ..*old(self) }),
            changed == (old(self).ap != 0),
    {
        if self.ap != 0 {
            self.ap = 0;
            true
        } else {
            false
        }
    }

    /// Lets `millis_elapsed` milliseconds pass: every effect and every
    /// cooldown ages by that time, and the effects that ran out are removed.
    /// The stats are computed afresh exactly when an effect was removed;
    /// the result says whether they were.
    pub fn update(&mut self, millis_elapsed: u32, rules: &Rules) -> (recomputed: bool)
        ensures
            final(self).effects@ == surviving(old(self).effects@, millis_elapsed),
            final(self).ability_states@.len() == old(self).ability_states@.len(),
            forall|i: int|
                0 <= i < old(self).ability_states@.len() ==> final(self).ability_states@[i]
                    == old(self).ability_states@[i].ticked(millis_elapsed),
            recomputed == (final(self).effects@.len() != old(self).effects@.len()),
            recomputed ==> final(self).stats@ == final(self).derived(*rules)
                && final(self).has_level_up == old(self).level_up_due(*rules),
            !recomputed ==> final(self).stats == old(self).stats
                && final(self).has_level_up == old(self).has_level_up,
            final(self).actor == old(self).actor,
            final(self).hp == old(self).hp,
            final(self).ap == old(self).ap,
            final(self).xp == old(self).xp,
            final(self).inventory == old(self).inventory,
            old(self).states_distinct() ==> final(self).states_distinct(),
    {
        let start_len = self.effects.len();
        let mut kept: Vec<Effect> = Vec::new();
        let mut i: usize = 0;
        while i < self.effects.len()
            invariant
                0 <= i <= self.effects.len(),
                *self == *old(self),
                kept@ == surviving(self.effects@.take(i as int), millis_elapsed),
            decreases self.effects.len() - i,
        {
            proof {
                assert(self.effects@.take(i + 1).drop_last() =~= self.effects@.take(i as int));
            }
            let mut effect = self.effects[i];
            effect.update(millis_elapsed);
            if !effect.is_removal() {
                kept.push(effect);
            }
            i += 1;
        }
        assert(self.effects@.take(i as int) =~= self.effects@);
        self.effects = kept;
        let mut k: usize = 0;
        while k < self.ability_states.len()
            invariant
                0 <= k <= self.ability_states.len(),
                self.ability_states@.len() == old(self).ability_states@.len(),
                forall|j: int|
                    0 <= j < k ==> self.ability_states@[j] == old(self).ability_states@[j].ticked(
                        millis_elapsed,
                    ),
                forall|j: int|
                    k <= j < self.ability_states@.len() ==> self.ability_states@[j]
                        == old(self).ability_states@[j],
                self.effects@ == surviving(old(self).effects@, millis_elapsed),
                self.actor == old(self).actor,
                self.stats == old(self).stats,
                self.hp == old(self).hp,
                self.ap == old(self).ap,
                self.xp == old(self).xp,
                self.has_level_up == old(self).has_level_up,
                self.inventory == old(self).inventory,
            decreases self.ability_states.len() - k,
        {
            self.ability_states[k].update(millis_elapsed);
            k += 1;
        }
        if start_len != self.effects.len() {
            self.compute_stats(rules);
            true
        } else {
            false
        }
    }

    /// Replaces the authored actor by its levelled-up successor, computes
    /// the stats afresh and fills the hit points up. Every activatable
    /// ability of the new actor that had no state gets a fresh one. A state
    /// that the actor already has is kept, so that a cooldown in progress
    /// survives the level-up.
    pub fn level_up(&mut self, new_actor: Actor, rules: &Rules)
        ensures
            final(self).actor == new_actor,
            final(self).ability_states@ == with_states_for(
                old(self).ability_states@,
                new_actor.abilities@,
            ),
            final(self).stats@ == final(self).derived(*rules),
            final(self).has_level_up == final(self).level_up_due(*rules),
            final(self).hp == final(self).stats.max_hp,
            final(self).ap == old(self).ap,
            final(self).xp == old(self).xp,
            final(self).inventory == old(self).inventory,
            final(self).effects == old(self).effects,
            old(self).states_distinct() ==> final(self).states_distinct(),
    {
        proof {
            if self.states_distinct() {
                lemma_with_states_for_distinct(self.ability_states@, new_actor.abilities@);
            }
        }
        self.actor = new_actor;
        add_states_for(&mut self.ability_states, &self.actor.abilities);
        self.compute_stats(rules);
        self.init();
    }

    /// Moves every item of `prop` into the inventory, the last item of the
    /// prop first. Says whether there was anything to take.
    pub fn take_all(&mut self, prop: &mut PropState) -> (taken: bool)
        ensures
            took_all(*old(self), *old(prop), *final(self), *final(prop), taken),
    {
        let taken = prop.items.len() > 0;
        while prop.items.len() > 0
            invariant
                prop.items@.len() <= old(prop).items@.len(),
                prop.items@ == old(prop).items@.take(prop.items@.len() as int),
                self.inventory.items@ == old(self).inventory.items@ + old(prop).items@.skip(
                    prop.items@.len() as int,
                ).reverse(),
                prop.prop_id == old(prop).prop_id,
                prop.location == old(prop).location,
                self.inventory.equipped == old(self).inventory.equipped,
                self.actor == old(self).actor,
                self.stats == old(self).stats,
                self.hp == old(self).hp,
                self.ap == old(self).ap,
                self.xp == old(self).xp,
                self.has_level_up == old(self).has_level_up,
                self.effects == old(self).effects,
                self.ability_states == old(self).ability_states,
            decreases prop.items@.len(),
        {
            let ghost before = prop.items@.len() as int;
            match prop.items.pop() {
                Some(item) => {
                    self.inventory.add(item);
                    proof {
                        let all = old(prop).items@;
                        assert(prop.items@ =~= all.take(before - 1));
                        assert(all.skip(before - 1).reverse() =~= all.skip(before).reverse().push(
                            all[before - 1],
                        ));
                    }
                },
                None => {},
            }
        }
        taken
    }

    /// Moves the item at `item_index` of `prop` into the inventory. Says
    /// whether there was such an item.
    pub fn take(&mut self, prop: &mut PropState, item_index: usize) -> (taken: bool)
        ensures
            took(*old(self), *old(prop), *final(self), *final(prop), item_index, taken),
    {
        match prop.remove_item(item_index) {
            Some(item) => {
                self.inventory.add(item);
                true
            },
            None => false,
        }
    }
}

/// Computing the stats a second time changes nothing.
pub proof fn lemma_compute_stats_idempotent(
    before: ActorState,
    once: ActorState,
    twice: ActorState,
    rules: Rules,
)
    requires
        once.recomputed_from(before, rules),
        twice.recomputed_from(once, rules),
    ensures
        twice.stats@ == once.stats@,
        twice.has_level_up == once.has_level_up,
        twice.recomputed_from(before, rules),
{
}

} // verus!
