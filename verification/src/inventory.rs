//! The items that an actor carries and the slots in which it wears some of
//! them.

use vstd::prelude::*;
use crate::stats::BonusList;

verus! {

/// A place on the body in which one item can be worn or held.
#[derive(Debug, Copy, Clone, PartialEq, Eq, Hash, Structural)]
pub enum Slot {
    Head,
    Torso,
    Hands,
    Legs,
    Feet,
    HeldMain,
    HeldOff,
}

/// What makes an item equippable: the slot it goes into and the bonuses it
/// gives while it is worn.
#[derive(Debug, Copy, Clone, PartialEq, Eq, Structural)]
pub struct Equippable {
    pub slot: Slot,
    pub bonuses: BonusList,
}

/// An item.
#[derive(Debug, PartialEq, Eq)]
pub struct Item {
    pub id: String,
    pub equippable: Option<Equippable>,
}

impl Clone for Item {
    fn clone(&self) -> (copy: Self)
        ensures
            copy == *self,
    {
        Item { id: self.id.clone(), equippable: self.equippable }
    }
}

/// For each slot, the index of the item worn in it, if any.
#[derive(Debug, Copy, Clone, PartialEq, Eq, Structural)]
pub struct Slots {
    pub head: Option<usize>,
    pub torso: Option<usize>,
    pub hands: Option<usize>,
    pub legs: Option<usize>,
    pub feet: Option<usize>,
    pub held_main: Option<usize>,
    pub held_off: Option<usize>,
}

impl Slots {
    /// The index held for `slot`.
    pub open spec fn at(self, slot: Slot) -> Option<usize> {
        match slot {
            Slot::Head => self.head,
            Slot::Torso => self.torso,
            Slot::Hands => self.hands,
            Slot::Legs => self.legs,
            Slot::Feet => self.feet,
            Slot::HeldMain => self.held_main,
            Slot::HeldOff => self.held_off,
        }
    }

    /// These slots with `index` held for `slot`.
    pub open spec fn with(self, slot: Slot, index: Option<usize>) -> Slots {
        match slot {
            Slot::Head => Slots { head: index, ..self },
            Slot::Torso => Slots { torso: index, ..self },
            Slot::Hands => Slots { hands: index, ..self },
            Slot::Legs => Slots { legs: index, ..self },
            Slot::Feet => Slots { feet: index, ..self },
            Slot::HeldMain => Slots { held_main: index, ..self },
            Slot::HeldOff => Slots { held_off: index, ..self },
        }
    }

    /// Slots that hold nothing.
    pub open spec fn spec_empty() -> Slots {
        Slots {
            head: None,
            torso: None,
            hands: None,
            legs: None,
            feet: None,
            held_main: None,
            held_off: None,
        }
    }

    /// No slot holds anything.
    pub fn empty() -> (slots: Slots)
        ensures
            slots == Slots::spec_empty(),
            forall|slot: Slot| slots.at(slot) is None,
    {
        Slots {
            head: None,
            torso: None,
            hands: None,
            legs: None,
            feet: None,
            held_main: None,
            held_off: None,
        }
    }

    /// The index held for `slot`.
    pub fn get(&self, slot: Slot) -> (index: Option<usize>)
        ensures
            index == self.at(slot),
    {
        match slot {
            Slot::Head => self.head,
            Slot::Torso => self.torso,
            Slot::Hands => self.hands,
            Slot::Legs => self.legs,
            Slot::Feet => self.feet,
            Slot::HeldMain => self.held_main,
            Slot::HeldOff => self.held_off,
        }
    }

    /// Holds `index` for `slot` and leaves the other slots as they were.
    pub fn set(&mut self, slot: Slot, index: Option<usize>)
        ensures
            *final(self) == old(self).with(slot, index),
            final(self).at(slot) == index,
            forall|other: Slot| other != slot ==> final(self).at(other) == old(self).at(other),
    {
        match slot {
            Slot::Head => self.head = index,
            Slot::Torso => self.torso = index,
            Slot::Hands => self.hands = index,
            Slot::Legs => self.legs = index,
            Slot::Feet => self.feet = index,
            Slot::HeldMain => self.held_main = index,
            Slot::HeldOff => self.held_off = index,
        }
    }
}

/// The bonuses of `item` as a list of one entry, or the empty list.
pub open spec fn bonuses_if_worn(item: Option<Equippable>) -> Seq<BonusList> {
    match item {
        Some(equippable) => seq![equippable.bonuses],
        None => Seq::<BonusList>::empty(),
    }
}

/// The items of an actor. `equipped` refers to items by their index in
/// `items`; an index that points at no item, or at one that cannot be worn,
/// counts as an empty slot.
#[derive(Debug, Clone, PartialEq, Eq)]
pub struct Inventory {
    pub items: Vec<Item>,
    pub equipped: Slots,
}

impl Inventory {
    /// What is worn in `slot`.
    pub open spec fn worn(self, slot: Slot) -> Option<Equippable> {
        match self.equipped.at(slot) {
            Some(index) => if index < self.items@.len() {
                self.items@[index as int].equippable
            } else {
                None
            },
            None => None,
        }
    }

    /// The bonuses of all that is worn, slot by slot from head to off hand.
    pub open spec fn spec_equipped_bonuses(self) -> Seq<BonusList> {
        bonuses_if_worn(self.worn(Slot::Head)) + bonuses_if_worn(self.worn(Slot::Torso))
            + bonuses_if_worn(self.worn(Slot::Hands)) + bonuses_if_worn(self.worn(Slot::Legs))
            + bonuses_if_worn(self.worn(Slot::Feet)) + bonuses_if_worn(self.worn(Slot::HeldMain))
            + bonuses_if_worn(self.worn(Slot::HeldOff))
    }

    /// The slots as they are after an attempt to equip the item at `index`.
    pub open spec fn slots_after_equip(items: Seq<Item>, slots: Slots, index: usize) -> Slots {
        if index < items.len() && items[index as int].equippable is Some {
            slots.with(items[index as int].equippable->0.slot, Some(index))
        } else {
            slots
        }
    }

    /// An inventory that holds `items` and wears none of them.
    pub fn new(items: Vec<Item>) -> (inventory: Inventory)
        ensures
            inventory.items == items,
            inventory.equipped == Slots::spec_empty(),
    {
        Inventory { items, equipped: Slots::empty() }
    }

    /// What is worn in `slot`.
    pub fn get_worn(&self, slot: Slot) -> (item: Option<Equippable>)
        ensures
            item == self.worn(slot),
    {
        match self.equipped.get(slot) {
            Some(index) => if index < self.items.len() {
                self.items[index].equippable
            } else {
                None
            },
            None => None,
        }
    }

    /// Puts the item at `index` into the slot it belongs to, in place of
    /// what was worn there. Fails, changing nothing, when there is no such
    /// item or it cannot be worn.
    pub fn equip(&mut self, index: usize) -> (done: bool)
        ensures
            final(self).items == old(self).items,
            done <==> index < old(self).items@.len() && old(self).items@[index as int].equippable
                is Some,
            done ==> {
                let slot = old(self).items@[index as int].equippable->0.slot;
                &&& final(self).equipped.at(slot) == Some(index)
                &&& forall|other: Slot|
                    other != slot ==> final(self).equipped.at(other) == old(self).equipped.at(
                        other,
                    )
            },
            !done ==> final(self).equipped == old(self).equipped,
            final(self).equipped == Inventory::slots_after_equip(
                old(self).items@,
                old(self).equipped,
                index,
            ),
    {
        if index >= self.items.len() {
            return false;
        }
        match self.items[index].equippable {
            None => false,
            Some(equippable) => {
                self.equipped.set(equippable.slot, Some(index));
                true
            },
        }
    }

    /// Empties `slot`. Fails, changing nothing, when the slot holds nothing.
    pub fn unequip(&mut self, slot: Slot) -> (done: bool)
        ensures
            final(self).items == old(self).items,
            done <==> old(self).equipped.at(slot) is Some,
            final(self).equipped == old(self).equipped.with(slot, None),
            final(self).equipped.at(slot) is None,
            forall|other: Slot|
                other != slot ==> final(self).equipped.at(other) == old(self).equipped.at(other),
    {
        match self.equipped.get(slot) {
            None => false,
            Some(_) => {
                self.equipped.set(slot, None);
                true
            },
        }
    }

    /// Adds `item` behind the items already held.
    pub fn add(&mut self, item: Item)
        ensures
            final(self).items@ == old(self).items@.push(item),
            final(self).equipped == old(self).equipped,
    {
        self.items.push(item);
    }

    /// Appends to `bonuses` what the item worn in `slot` gives.
    fn push_worn(&self, bonuses: &mut Vec<BonusList>, slot: Slot)
        ensures
            final(bonuses)@ == old(bonuses)@ + bonuses_if_worn(self.worn(slot)),
    {
        match self.get_worn(slot) {
            Some(worn) => {
                bonuses.push(worn.bonuses);
            },
            None => {
            },
        }
    }

    /// The bonuses of all that is worn, slot by slot from head to off hand.
    pub fn equipped_bonuses(&self) -> (bonuses: Vec<BonusList>)
        ensures
            bonuses@ == self.spec_equipped_bonuses(),
    {
        let mut bonuses: Vec<BonusList> = Vec::new();
        self.push_worn(&mut bonuses, Slot::Head);
        self.push_worn(&mut bonuses, Slot::Torso);
        self.push_worn(&mut bonuses, Slot::Hands);
        self.push_worn(&mut bonuses, Slot::Legs);
        self.push_worn(&mut bonuses, Slot::Feet);
        self.push_worn(&mut bonuses, Slot::HeldMain);
        self.push_worn(&mut bonuses, Slot::HeldOff);
        bonuses
    }
}

} // verus!
