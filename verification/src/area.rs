//! The area: its map of passable tiles, the registry of its entities, and
//! its props.
//!
//! An entity is known to the rest of the simulation by its handle, the index
//! of its slot in the registry. A slot is emptied when its entity leaves, so
//! a handle may go stale; every use of a handle checks the slot first, and a
//! stale handle makes the operation do nothing.

use vstd::prelude::*;
use crate::actor::{took, took_all, ActorState};
use crate::combat::{
    attack_effect, loot_of, loot_rolled, loot_rolls_allowed, no_attack, rolls_allowed,
    AttackOutcome, AttackResult, AttackRoll,
};
use crate::geometry::{Footprint, Point};
use crate::inventory::Item;
use crate::module::{prop_known, Module};
use crate::prop::PropState;
use crate::rules::HitKind;
use crate::search::{first_index, lemma_first_index_found, lemma_first_index_skip};

verus! {

/// An entity on the map: an actor, where it stands and what it covers.
#[derive(Debug, Clone, PartialEq, Eq)]
pub struct EntityState {
    pub actor: ActorState,
    pub location: Point,
    pub size: Footprint,
}

/// The state of an area.
#[derive(Debug, Clone, PartialEq, Eq)]
pub struct AreaState {
    pub width: i32,
    pub height: i32,
    /// For each tile, row by row, whether it can be walked on. A tile for
    /// which nothing is held cannot.
    pub passable: Vec<bool>,
    pub entities: Vec<Option<EntityState>>,
    pub props: Vec<PropState>,
    /// Whether a turn based encounter is under way.
    pub turn_active: bool,
}

/// Whether a slot is empty.
pub open spec fn is_free() -> spec_fn(Option<EntityState>) -> bool {
    |slot: Option<EntityState>| slot is None
}

/// The index of the first empty slot of `slots`, or their number where none
/// is empty.
pub open spec fn first_free(slots: Seq<Option<EntityState>>) -> int {
    match first_index(slots, is_free()) {
        Some(index) => index,
        None => slots.len() as int,
    }
}

impl AreaState {
    /// Whether `handle` refers to an entity that is in the area.
    pub open spec fn live(self, handle: usize) -> bool {
        handle < self.entities@.len() && self.entities@[handle as int] is Some
    }

    /// The entity that the live handle `handle` refers to.
    pub open spec fn entity(self, handle: usize) -> EntityState {
        self.entities@[handle as int]->0
    }

    /// Whether the tile in column `x` and row `y` lies on the map and can be
    /// walked on.
    pub open spec fn tile_passable(self, x: int, y: int) -> bool {
        &&& 0 <= x < self.width
        &&& 0 <= y < self.height
        &&& y * self.width + x < self.passable@.len()
        &&& self.passable@[y * self.width + x]
    }

    /// Whether something of the extent `size` can stand at column `x` and
    /// row `y`: every tile that it would cover can be walked on.
    pub open spec fn footprint_passable(self, size: Footprint, x: int, y: int) -> bool {
        forall|dx: int, dy: int|
            0 <= dx < size.width && 0 <= dy < size.height ==> #[trigger] self.tile_passable(
                x + dx,
                y + dy,
            )
    }

    /// Whether an attack of `attacker` on `target` takes place: both are in
    /// the area, and they are not one and the same.
    pub open spec fn can_fight(self, attacker: usize, target: usize) -> bool {
        self.live(attacker) && self.live(target) && attacker != target
    }

    /// An area of the given extent without entities and props.
    pub fn new(width: i32, height: i32, passable: Vec<bool>) -> (area: AreaState)
        ensures
            area.width == width,
            area.height == height,
            area.passable == passable,
            area.entities@.len() == 0,
            area.props@.len() == 0,
            !area.turn_active,
    {
        AreaState {
            width,
            height,
            passable,
            entities: Vec::new(),
            props: Vec::new(),
            turn_active: false,
        }
    }

    /// Whether `handle` refers to an entity that is in the area.
    pub fn is_live(&self, handle: usize) -> (live: bool)
        ensures
            live == self.live(handle),
    {
        handle < self.entities.len() && self.entities[handle].is_some()
    }

    /// The entity that `handle` refers to, if it is in the area.
    pub fn get_entity(&self, handle: usize) -> (entity: Option<&EntityState>)
        ensures
            entity is Some <==> self.live(handle),
            entity matches Some(e) ==> *e == self.entity(handle),
    {
        if handle < self.entities.len() {
            self.entities[handle].as_ref()
        } else {
            None
        }
    }

    /// Puts `entity` into the first empty slot, or into a new slot behind
    /// the others where none is empty, and hands back its handle. No other
    /// slot changes, so the handles of the other entities stay good.
    pub fn add_entity(&mut self, entity: EntityState) -> (handle: usize)
        ensures
            handle == first_free(old(self).entities@),
            handle < old(self).entities@.len() ==> final(self).entities@
                == old(self).entities@.update(handle as int, Some(entity)),
            handle == old(self).entities@.len() ==> final(self).entities@
                == old(self).entities@.push(Some(entity)),
            final(self).live(handle),
            final(self).entity(handle) == entity,
            final(self).width == old(self).width,
            final(self).height == old(self).height,
            final(self).passable == old(self).passable,
            final(self).props == old(self).props,
            final(self).turn_active == old(self).turn_active,
    {
        let mut i: usize = 0;
        while i < self.entities.len()
            invariant
                0 <= i <= self.entities.len(),
                *self == *old(self),
                first_index(self.entities@.take(i as int), is_free()) is None,
            decreases self.entities.len() - i,
        {
            if self.entities[i].is_none() {
                proof {
                    lemma_first_index_found(self.entities@, i as int, is_free());
                }
                self.entities[i] = Some(entity);
                return i;
            }
            proof {
                lemma_first_index_skip(self.entities@, i as int, is_free());
            }
            i += 1;
        }
        assert(self.entities@.take(i as int) =~= self.entities@);
        self.entities.push(Some(entity));
        i
    }

    /// Takes the entity that `handle` refers to out of the area and empties
    /// its slot. A stale handle changes nothing.
    pub fn remove_entity(&mut self, handle: usize) -> (entity: Option<EntityState>)
        ensures
            entity is Some <==> old(self).live(handle),
            entity matches Some(e) ==> e == old(self).entity(handle) && final(self).entities@
                == old(self).entities@.update(handle as int, None),
            entity is None ==> *final(self) == *old(self),
            !final(self).live(handle),
            final(self).width == old(self).width,
            final(self).height == old(self).height,
            final(self).passable == old(self).passable,
            final(self).props == old(self).props,
            final(self).turn_active == old(self).turn_active,
    {
        if !self.is_live(handle) {
            return None;
        }
        let entity = self.entities[handle].take();
        entity
    }

    /// Puts a prop with the given items on the map, behind the props that
    /// are there, and hands back its index.
    pub fn add_prop(&mut self, prop_id: String, location: Point, items: Vec<Item>) -> (index: usize)
        ensures
            index == old(self).props@.len(),
            final(self).props@ == old(self).props@.push(PropState { prop_id, location, items }),
            final(self).width == old(self).width,
            final(self).height == old(self).height,
            final(self).passable == old(self).passable,
            final(self).entities == old(self).entities,
            final(self).turn_active == old(self).turn_active,
    {
        let index = self.props.len();
        self.props.push(PropState { prop_id, location, items });
        index
    }

    /// The prop at `index`, if there is one.
    pub fn get_prop(&self, index: usize) -> (prop: Option<&PropState>)
        ensures
            prop is Some <==> index < self.props@.len(),
            prop matches Some(p) ==> *p == self.props@[index as int],
    {
        if index < self.props.len() {
            Some(&self.props[index])
        } else {
            None
        }
    }

    /// Whether the tile in column `x` and row `y` lies on the map and can be
    /// walked on.
    pub fn is_tile_passable(&self, x: i64, y: i64) -> (passable: bool)
        ensures
            passable == self.tile_passable(x as int, y as int),
    {
        if x < 0 || y < 0 || x >= self.width as i64 || y >= self.height as i64 {
            return false;
        }
        assert(0 <= y * self.width + x < 0x8000_0000 * 0x8000_0000) by (nonlinear_arith)
            requires
                0 <= x < self.width,
                0 <= y < self.height,
                self.width < 0x8000_0000,
                self.height < 0x8000_0000,
        ;
        let index: u64 = (y * self.width as i64 + x) as u64;
        if index >= self.passable.len() as u64 {
            return false;
        }
        self.passable[index as usize]
    }

    /// Whether something of the extent `size` can stand at column `x` and
    /// row `y`.
    pub fn is_passable(&self, size: Footprint, x: i32, y: i32) -> (passable: bool)
        ensures
            passable == self.footprint_passable(size, x as int, y as int),
    {
        let mut dy: u32 = 0;
        while dy < size.height
            invariant
                0 <= dy <= size.height,
                forall|ex: int, ey: int|
                    0 <= ex < size.width && 0 <= ey < dy ==> #[trigger] self.tile_passable(
                        x + ex,
                        y + ey,
                    ),
            decreases size.height - dy,
        {
            let mut dx: u32 = 0;
            while dx < size.width
                invariant
                    0 <= dx <= size.width,
                    0 <= dy < size.height,
                    forall|ex: int, ey: int|
                        0 <= ex < size.width && 0 <= ey < dy ==> #[trigger] self.tile_passable(
                            x + ex,
                            y + ey,
                        ),
                    forall|ex: int| 0 <= ex < dx ==> #[trigger] self.tile_passable(x + ex, y + dy),
                decreases size.width - dx,
            {
                if !self.is_tile_passable(x as i64 + dx as i64, y as i64 + dy as i64) {
                    return false;
                }
                dx += 1;
            }
            dy += 1;
        }
        true
    }

    /// Whether the entity that `handle` refers to could stand at column `x`
    /// and row `y`. A stale handle could stand nowhere.
    pub fn is_passable_for(&self, handle: usize, x: i32, y: i32) -> (passable: bool)
        ensures
            passable == (self.live(handle) && self.footprint_passable(
                self.entity(handle).size,
                x as int,
                y as int,
            )),
    {
        match self.get_entity(handle) {
            Some(entity) => self.is_passable(entity.size, x, y),
            None => false,
        }
    }
}

/// The loot that an attack with the given numbers leaves on the map, where
/// `before` is the area before the attack and `after` the area after it.
pub open spec fn loot_left(
    before: AreaState,
    after: AreaState,
    target: usize,
    module: Module,
    gate_roll: u32,
    loot_rolls: Seq<u32>,
) -> Seq<Item> {
    if before.entity(target).actor.hp <= 0 {
        Seq::<Item>::empty()
    } else {
        loot_of(
            after.entity(target).actor,
            prop_known(module.props@, module.rules.loot_drop_prop@),
            gate_roll,
            loot_rolls,
        )
    }
}

/// Whether the props `after` are the props `before` with the loot `loot`
/// dropped at `location`: nothing is dropped where there is no loot, and
/// otherwise one prop is added behind the others, with the id that the rules
/// give for dropped loot, at that place, holding just that loot.
pub open spec fn loot_dropped(
    before: Seq<PropState>,
    after: Seq<PropState>,
    module: Module,
    location: Point,
    loot: Seq<Item>,
) -> bool {
    if loot.len() == 0 {
        after == before
    } else {
        &&& after.len() == before.len() + 1
        &&& after.drop_last() == before
        &&& after.last().prop_id@ == module.rules.loot_drop_prop@
        &&& after.last().location == location
        &&& after.last().items@ == loot
    }
}

/// Whether `after` is what the area `before` becomes when `attacker`
/// attacks `target` with the given numbers, and `outcomes` what the attack
/// reports. Where no attack takes place nothing changes, and a single miss
/// is reported. Otherwise the two actors change as an attack between them
/// says, the loot of the target is dropped where the target stands, and
/// nothing else changes.
pub open spec fn attacked(
    before: AreaState,
    after: AreaState,
    attacker: usize,
    target: usize,
    module: Module,
    rolls: Seq<AttackRoll>,
    gate_roll: u32,
    loot_rolls: Seq<u32>,
    outcomes: Seq<AttackOutcome>,
) -> bool {
    if !before.can_fight(attacker, target) {
        after == before && outcomes == no_attack()
    } else {
        let loot = loot_left(before, after, target, module, gate_roll, loot_rolls);
        &&& after.width == before.width
        &&& after.height == before.height
        &&& after.passable == before.passable
        &&& after.turn_active == before.turn_active
        &&& after.entities@.len() == before.entities@.len()
        &&& forall|h: int|
            0 <= h < before.entities@.len() && h != attacker && h != target
                ==> after.entities@[h] == before.entities@[h]
        &&& after.live(attacker)
        &&& after.live(target)
        &&& after.entity(attacker).location == before.entity(attacker).location
        &&& after.entity(attacker).size == before.entity(attacker).size
        &&& after.entity(target).location == before.entity(target).location
        &&& after.entity(target).size == before.entity(target).size
        &&& attack_effect(
            before.entity(attacker).actor,
            before.entity(target).actor,
            after.entity(attacker).actor,
            after.entity(target).actor,
            module.rules,
            prop_known(module.props@, module.rules.loot_drop_prop@),
            rolls,
            gate_roll,
            loot_rolls,
            outcomes,
            loot,
        )
        &&& loot_dropped(before.props@, after.props@, module, before.entity(target).location, loot)
    }
}

/// Whether `after` is the area `before` with nothing changed but the entity
/// in the slot `handle` and the prop at `prop_index`.
pub open spec fn same_but_taker_and_prop(
    before: AreaState,
    after: AreaState,
    handle: usize,
    prop_index: usize,
) -> bool {
    &&& after.width == before.width
    &&& after.height == before.height
    &&& after.passable == before.passable
    &&& after.turn_active == before.turn_active
    &&& after.entities@.len() == before.entities@.len()
    &&& forall|h: int|
        0 <= h < before.entities@.len() && h != handle ==> after.entities@[h]
            == before.entities@[h]
    &&& after.props@.len() == before.props@.len()
    &&& forall|p: int|
        0 <= p < before.props@.len() && p != prop_index ==> after.props@[p] == before.props@[p]
    &&& after.live(handle)
    &&& after.entity(handle).location == before.entity(handle).location
    &&& after.entity(handle).size == before.entity(handle).size
}

impl AreaState {
    /// Lets `attacker` attack `target` with the numbers given: `rolls` for
    /// the attacks, `gate_roll` and `loot_rolls` for the loot. No attack
    /// takes place where one of the two handles is stale or the two are the
    /// same.
    pub fn attack_with_rolls(
        &mut self,
        attacker: usize,
        target: usize,
        module: &Module,
        rolls: &Vec<AttackRoll>,
        gate_roll: u32,
        loot_rolls: &Vec<u32>,
    ) -> (outcomes: Vec<AttackOutcome>)
        ensures
            attacked(
                *old(self),
                *final(self),
                attacker,
                target,
                *module,
                rolls@,
                gate_roll,
                loot_rolls@,
                outcomes@,
            ),
    {
        if !self.is_live(attacker) || !self.is_live(target) || attacker == target {
            return missed();
        }
        let known = module.has_prop(module.rules.loot_drop_prop.as_str());
        let mut attacking = match self.entities[attacker].take() {
            Some(entity) => entity,
            None => {
                return missed();
            },
        };
        let mut result = AttackResult { outcomes: Vec::new(), loot: Vec::new() };
        let mut location = Point { x: 0, y: 0 };
        match &mut self.entities[target] {
            Some(attacked) => {
                location = attacked.location;
                result =
                attacking.actor.attack_with_rolls(
                    &mut attacked.actor,
                    &module.rules,
                    known,
                    rolls,
                    gate_roll,
                    loot_rolls,
                );
            },
            None => {},
        }
        self.entities[attacker] = Some(attacking);
        let AttackResult { outcomes, loot } = result;
        if loot.len() > 0 {
            let ghost props_before = self.props@;
            self.props.push(
                PropState { prop_id: module.rules.loot_drop_prop.clone(), location, items: loot },
            );
            assert(self.props@.drop_last() =~= props_before);
        }
        outcomes
    }

    /// Lets `attacker` attack `target`, rolling the dice for each attack and
    /// for the loot. No attack takes place where one of the two handles is
    /// stale or the two are the same.
    pub fn attack(&mut self, attacker: usize, target: usize, module: &Module) -> (outcomes: Vec<
        AttackOutcome,
    >)
        ensures
            exists|rolls: Seq<AttackRoll>, gate_roll: u32, loot_rolls: Seq<u32>|
                {
                    &&& old(self).can_fight(attacker, target) && old(self).entity(
                        target,
                    ).actor.hp > 0 ==> {
                        &&& rolls_allowed(old(self).entity(attacker).actor.stats@.attacks, rolls)
                        &&& loot_rolled(
                            final(self).entity(target).actor,
                            prop_known(module.props@, module.rules.loot_drop_prop@),
                        ) ==> 1 <= gate_roll <= 100 && loot_rolls_allowed(
                            final(self).entity(target).actor,
                            gate_roll,
                            loot_rolls,
                        )
                    }
                    &&& #[trigger] attacked(
                        *old(self),
                        *final(self),
                        attacker,
                        target,
                        *module,
                        rolls,
                        gate_roll,
                        loot_rolls,
                        outcomes@,
                    )
                },
    {
        if !self.is_live(attacker) || !self.is_live(target) || attacker == target {
            let outcomes = missed();
            assert(attacked(
                *old(self),
                *self,
                attacker,
                target,
                *module,
                Seq::<AttackRoll>::empty(),
                1,
                Seq::<u32>::empty(),
                outcomes@,
            ));
            return outcomes;
        }
        let known = module.has_prop(module.rules.loot_drop_prop.as_str());
        let mut attacking = match self.entities[attacker].take() {
            Some(entity) => entity,
            None => {
                return missed();
            },
        };
        let mut result = AttackResult { outcomes: Vec::new(), loot: Vec::new() };
        let mut location = Point { x: 0, y: 0 };
        let ghost mut rolls = Seq::<AttackRoll>::empty();
        let ghost mut gate_roll = 1u32;
        let ghost mut loot_rolls = Seq::<u32>::empty();
        match &mut self.entities[target] {
            Some(attacked) => {
                location = attacked.location;
                let ghost attacker_before = attacking.actor;
                let ghost target_before = attacked.actor;
                result = attacking.actor.attack(&mut attacked.actor, &module.rules, known);
                proof {
                    let (r, g, l) = choose|r: Seq<AttackRoll>, g: u32, l: Seq<u32>|
                        {
                            &&& target_before.hp > 0 ==> {
                                &&& rolls_allowed(attacker_before.stats@.attacks, r)
                                &&& loot_rolled(attacked.actor, known) ==> 1 <= g <= 100
                                    && loot_rolls_allowed(attacked.actor, g, l)
                            }
                            &&& #[trigger] attack_effect(
                                attacker_before,
                                target_before,
                                attacking.actor,
                                attacked.actor,
                                module.rules,
                                known,
                                r,
                                g,
                                l,
                                result.outcomes@,
                                result.loot@,
                            )
                        };
                    rolls = r;
                    gate_roll = g;
                    loot_rolls = l;
                }
            },
            None => {},
        }
        self.entities[attacker] = Some(attacking);
        let AttackResult { outcomes, loot } = result;
        if loot.len() > 0 {
            let ghost props_before = self.props@;
            self.props.push(
                PropState { prop_id: module.rules.loot_drop_prop.clone(), location, items: loot },
            );
            assert(self.props@.drop_last() =~= props_before);
        }
        assert(attacked(
            *old(self),
            *self,
            attacker,
            target,
            *module,
            rolls,
            gate_roll,
            loot_rolls,
            outcomes@,
        ));
        outcomes
    }

    /// Lets the entity that `handle` refers to take every item of the prop
    /// at `prop_index`. Nothing happens where the handle is stale or there
    /// is no such prop. Says whether anything was taken.
    pub fn take_all(&mut self, handle: usize, prop_index: usize) -> (taken: bool)
        ensures
            !(old(self).live(handle) && prop_index < old(self).props@.len()) ==> !taken
                && *final(self) == *old(self),
            old(self).live(handle) && prop_index < old(self).props@.len() ==> {
                &&& same_but_taker_and_prop(*old(self), *final(self), handle, prop_index)
                &&& took_all(
                    old(self).entity(handle).actor,
                    old(self).props@[prop_index as int],
                    final(self).entity(handle).actor,
                    final(self).props@[prop_index as int],
                    taken,
                )
            },
    {
        if !self.is_live(handle) || prop_index >= self.props.len() {
            return false;
        }
        match &mut self.entities[handle] {
            Some(entity) => entity.actor.take_all(&mut self.props[prop_index]),
            None => false,
        }
    }

    /// Lets the entity that `handle` refers to take the item at
    /// `item_index` of the prop at `prop_index`. Nothing happens where the
    /// handle is stale or there is no such prop or no such item. Says
    /// whether the item was taken.
    pub fn take(&mut self, handle: usize, prop_index: usize, item_index: usize) -> (taken: bool)
        ensures
            !(old(self).live(handle) && prop_index < old(self).props@.len()) ==> !taken
                && *final(self) == *old(self),
            old(self).live(handle) && prop_index < old(self).props@.len() ==> {
                &&& same_but_taker_and_prop(*old(self), *final(self), handle, prop_index)
                &&& took(
                    old(self).entity(handle).actor,
                    old(self).props@[prop_index as int],
                    final(self).entity(handle).actor,
                    final(self).props@[prop_index as int],
                    item_index,
                    taken,
                )
            },
    {
        if !self.is_live(handle) || prop_index >= self.props.len() {
            return false;
        }
        match &mut self.entities[handle] {
            Some(entity) => entity.actor.take(&mut self.props[prop_index], item_index),
            None => false,
        }
    }
}

/// The report of an attack that did not take place: a single miss.
fn missed() -> (outcomes: Vec<AttackOutcome>)
    ensures
        outcomes@ == no_attack(),
{
    let mut outcomes: Vec<AttackOutcome> = Vec::new();
    outcomes.push(AttackOutcome { kind: HitKind::Miss, damage: 0 });
    outcomes
}

} // verus!
