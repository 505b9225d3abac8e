//! Weighted loot tables and the drawing of items from them.
//!
//! A table is drawn from with numbers that the caller supplies or that the
//! generator rolls. A number picks the entry in whose stretch of the summed
//! weights it falls: the first entry owns the numbers below its weight, the
//! second those from there up to the sum of the first two weights, and so on.

use vstd::prelude::*;
use crate::dice::{random_in, roll_d100};
use crate::inventory::Item;

verus! {

/// An item and the weight with which it is drawn.
#[derive(Debug, Clone, PartialEq, Eq)]
pub struct LootEntry {
    pub item: Item,
    pub weight: u32,
}

/// A loot table: its entries, and how many items one generation draws.
#[derive(Debug, Clone, PartialEq, Eq)]
pub struct LootTable {
    pub entries: Vec<LootEntry>,
    pub count: u32,
}

/// The sum of the weights of `entries`.
pub open spec fn total_weight(entries: Seq<LootEntry>) -> int
    decreases entries.len(),
{
    if entries.len() == 0 {
        0
    } else {
        total_weight(entries.drop_last()) + entries.last().weight
    }
}

/// The index of the entry that the number `roll` picks, if it picks one.
pub open spec fn picked(entries: Seq<LootEntry>, roll: int) -> Option<int>
    decreases entries.len(),
{
    if entries.len() == 0 {
        None
    } else {
        let earlier = picked(entries.drop_last(), roll);
        if earlier is Some {
            earlier
        } else if roll < total_weight(entries) {
            Some(entries.len() - 1)
        } else {
            None
        }
    }
}

/// The items that the numbers `rolls` draw, in the order of the numbers. A
/// number that picks no entry draws nothing.
pub open spec fn drawn(entries: Seq<LootEntry>, rolls: Seq<u32>) -> Seq<Item>
    decreases rolls.len(),
{
    if rolls.len() == 0 {
        Seq::<Item>::empty()
    } else {
        let rest = drawn(entries, rolls.drop_last());
        match picked(entries, rolls.last() as int) {
            Some(index) => rest.push(entries[index].item),
            None => rest,
        }
    }
}

/// Whether a roll of the hundred sided die passes a chance given in percent.
pub open spec fn passes(chance: u32, gate_roll: u32) -> bool {
    gate_roll <= chance
}

/// What a generation yields when the die shows `gate_roll` and the numbers
/// `rolls` are drawn: nothing when the die does not pass `chance`, and the
/// items that the numbers draw when it does.
pub open spec fn loot_outcome(
    entries: Seq<LootEntry>,
    chance: u32,
    gate_roll: u32,
    rolls: Seq<u32>,
) -> Seq<Item> {
    if passes(chance, gate_roll) {
        drawn(entries, rolls)
    } else {
        Seq::<Item>::empty()
    }
}

/// A number picks the entry in whose stretch of the summed weights it falls,
/// and none when it is not below the sum of all weights.
pub proof fn lemma_picked_stretch(entries: Seq<LootEntry>, roll: int)
    requires
        0 <= roll,
    ensures
        match picked(entries, roll) {
            Some(index) => 0 <= index < entries.len() && total_weight(entries.take(index)) <= roll
                < total_weight(entries.take(index + 1)),
            None => roll >= total_weight(entries),
        },
    decreases entries.len(),
{
    if entries.len() > 0 {
        let front = entries.drop_last();
        lemma_picked_stretch(front, roll);
        match picked(front, roll) {
            Some(index) => {
                assert(front.take(index) =~= entries.take(index));
                assert(front.take(index + 1) =~= entries.take(index + 1));
            },
            None => {
                assert(entries.take(entries.len() - 1) =~= front);
                assert(entries.take(entries.len() as int) =~= entries);
            },
        }
    }
}

/// What a number picks among the first entries it picks among all.
pub proof fn lemma_picked_prefix(entries: Seq<LootEntry>, n: int, roll: int)
    requires
        0 <= n <= entries.len(),
        picked(entries.take(n), roll) is Some,
    ensures
        picked(entries, roll) == picked(entries.take(n), roll),
    decreases entries.len() - n,
{
    if n == entries.len() {
        assert(entries.take(n) =~= entries);
    } else {
        assert(entries.take(n + 1).drop_last() =~= entries.take(n));
        lemma_picked_prefix(entries, n + 1, roll);
    }
}

impl LootTable {
    /// The bound below which the numbers for this table are rolled: the sum
    /// of the weights, or the largest `u32` when the sum is beyond it.
    pub open spec fn roll_bound(self) -> u32 {
        if total_weight(self.entries@) > u32::MAX {
            u32::MAX
        } else {
            total_weight(self.entries@) as u32
        }
    }

    /// Whether `rolls` are numbers that a generation may draw: as many as
    /// the table asks for, each below the bound; none at all when the
    /// weights add up to nothing.
    pub open spec fn rolls_allowed(self, rolls: Seq<u32>) -> bool {
        &&& rolls.len() == if self.roll_bound() == 0 {
            0
        } else {
            self.count as int
        }
        &&& forall|i: int| 0 <= i < rolls.len() ==> rolls[i] < self.roll_bound()
    }

    /// The bound below which the numbers for this table are rolled.
    pub fn get_roll_bound(&self) -> (bound: u32)
        ensures
            bound == self.roll_bound(),
    {
        let mut total: u128 = 0;
        let mut i: usize = 0;
        while i < self.entries.len()
            invariant
                0 <= i <= self.entries.len(),
                total == total_weight(self.entries@.take(i as int)),
                total <= i * u32::MAX,
            decreases self.entries.len() - i,
        {
            proof {
                assert(self.entries@.take(i + 1).drop_last() =~= self.entries@.take(i as int));
            }
            total = total + self.entries[i].weight as u128;
            i += 1;
        }
        assert(self.entries@.take(i as int) =~= self.entries@);
        if total > u32::MAX as u128 {
            u32::MAX
        } else {
            total as u32
        }
    }

    /// The index of the entry that the number `roll` picks.
    pub fn pick(&self, roll: u32) -> (index: Option<usize>)
        ensures
            match index {
                Some(i) => picked(self.entries@, roll as int) == Some(i as int),
                None => picked(self.entries@, roll as int) is None,
            },
    {
        let mut total: u128 = 0;
        let mut i: usize = 0;
        while i < self.entries.len()
            invariant
                0 <= i <= self.entries.len(),
                total == total_weight(self.entries@.take(i as int)),
                total <= i * u32::MAX,
                picked(self.entries@.take(i as int), roll as int) is None,
            decreases self.entries.len() - i,
        {
            proof {
                assert(self.entries@.take(i + 1).drop_last() =~= self.entries@.take(i as int));
            }
            total = total + self.entries[i].weight as u128;
            if (roll as u128) < total {
                proof {
                    lemma_picked_prefix(self.entries@, i + 1, roll as int);
                }
                return Some(i);
            }
            i += 1;
        }
        assert(self.entries@.take(i as int) =~= self.entries@);
        None
    }

    /// The items that the numbers `rolls` draw from the table.
    pub fn draw(&self, rolls: &Vec<u32>) -> (items: Vec<Item>)
        ensures
            items@ == drawn(self.entries@, rolls@),
    {
        let mut items: Vec<Item> = Vec::new();
        let mut i: usize = 0;
        while i < rolls.len()
            invariant
                0 <= i <= rolls.len(),
                items@ == drawn(self.entries@, rolls@.take(i as int)),
            decreases rolls.len() - i,
        {
            proof {
                assert(rolls@.take(i + 1).drop_last() =~= rolls@.take(i as int));
                lemma_picked_stretch(self.entries@, rolls@[i as int] as int);
            }
            match self.pick(rolls[i]) {
                Some(index) => {
                    items.push(self.entries[index].item.clone());
                },
                None => {},
            }
            i += 1;
        }
        assert(rolls@.take(i as int) =~= rolls@);
        items
    }

    /// What a generation yields when the die shows `gate_roll` and the
    /// numbers `rolls` are drawn.
    pub fn resolve(&self, chance: u32, gate_roll: u32, rolls: &Vec<u32>) -> (items: Vec<Item>)
        ensures
            items@ == loot_outcome(self.entries@, chance, gate_roll, rolls@),
    {
        if gate_roll <= chance {
            self.draw(rolls)
        } else {
            Vec::new()
        }
    }

    /// Rolls the numbers for one generation.
    pub fn roll(&self) -> (rolls: Vec<u32>)
        ensures
            self.rolls_allowed(rolls@),
    {
        let mut rolls: Vec<u32> = Vec::new();
        let bound = self.get_roll_bound();
        if bound == 0 {
            return rolls;
        }
        let mut i: u32 = 0;
        while i < self.count
            invariant
                0 <= i <= self.count,
                bound == self.roll_bound(),
                bound > 0,
                rolls@.len() == i,
                forall|k: int| 0 <= k < rolls@.len() ==> rolls@[k] < bound,
            decreases self.count - i,
        {
            let roll = random_in(0, bound);
            rolls.push(roll);
            i += 1;
        }
        rolls
    }

    /// Rolls the hundred sided die against `chance` and, when it passes,
    /// rolls the numbers of one generation and draws their items. A chance
    /// of 100 or more always passes, a chance of 0 never does.
    pub fn generate_with_chance(&self, chance: u32) -> (items: Vec<Item>)
        ensures
            exists|gate_roll: u32, rolls: Seq<u32>|
                {
                    &&& 1 <= gate_roll <= 100
                    &&& passes(chance, gate_roll) ==> self.rolls_allowed(rolls)
                    &&& items@ == #[trigger] loot_outcome(self.entries@, chance, gate_roll, rolls)
                },
            chance == 0 ==> items@.len() == 0,
    {
        let gate_roll = roll_d100();
        let rolls = if gate_roll <= chance {
            self.roll()
        } else {
            Vec::new()
        };
        let items = self.resolve(chance, gate_roll, &rolls);
        items
    }
}

} // verus!
