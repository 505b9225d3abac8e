//! The constants that govern action points, attack rolls and damage, and the
//! resolution of a single attack roll.

use vstd::prelude::*;
use crate::dice::roll_d100;

verus! {

/// How well an attack landed, from worst to best.
#[derive(Debug, Copy, Clone, PartialEq, Eq, Hash, Structural)]
pub enum HitKind {
    Miss,
    Graze,
    Hit,
    Crit,
}

impl HitKind {
    /// The position of the tier in the order Miss, Graze, Hit, Crit.
    pub open spec fn rank(self) -> int {
        match self {
            HitKind::Miss => 0,
            HitKind::Graze => 1,
            HitKind::Hit => 2,
            HitKind::Crit => 3,
        }
    }

    /// The name of the tier.
    pub open spec fn spec_name(self) -> Seq<char> {
        match self {
            HitKind::Miss => "Miss"@,
            HitKind::Graze => "Graze"@,
            HitKind::Hit => "Hit"@,
            HitKind::Crit => "Crit"@,
        }
    }

    /// The name of the tier.
    pub fn name(&self) -> (text: &'static str)
        ensures
            text@ == self.spec_name(),
    {
        match *self {
            HitKind::Miss => "Miss",
            HitKind::Graze => "Graze",
            HitKind::Hit => "Hit",
            HitKind::Crit => "Crit",
        }
    }
}

/// Why a set of rules is refused.
#[derive(Debug, Copy, Clone, PartialEq, Eq, Structural)]
pub enum RulesError {
    /// The thresholds are not strictly ascending from graze over hit to crit.
    ThresholdsUnordered,
}

/// The constants of the rule system. Damage multipliers are held in percent,
/// so that 100 leaves a damage roll as it is and 150 adds half to it.
#[derive(Debug, Clone, PartialEq, Eq)]
pub struct Rules {
    pub base_ap: u32,
    pub movement_ap: u32,
    pub attack_ap: u32,
    pub base_initiative: i32,
    pub graze_percentile: u32,
    pub hit_percentile: u32,
    pub crit_percentile: u32,
    pub graze_damage_percent: u32,
    pub hit_damage_percent: u32,
    pub crit_damage_percent: u32,
    pub dual_wield_damage_percent: u32,
    pub base_attribute: i32,
    pub builder_max_attribute: i32,
    pub builder_min_attribute: i32,
    pub builder_attribute_points: i32,
    /// The experience needed to leave each level; entry 0 is for level 1.
    pub experience_for_level: Vec<u32>,
    /// The id of the prop that holds the loot of a slain actor.
    pub loot_drop_prop: String,
}

impl Rules {
    /// The thresholds ascend strictly from graze over hit to crit.
    pub open spec fn thresholds_ordered(self) -> bool {
        self.graze_percentile < self.hit_percentile < self.crit_percentile
    }

    /// The tier that the adjusted roll `result` reaches.
    pub open spec fn tier(self, result: int) -> HitKind {
        if result >= self.crit_percentile {
            HitKind::Crit
        } else if result >= self.hit_percentile {
            HitKind::Hit
        } else if result >= self.graze_percentile {
            HitKind::Graze
        } else {
            HitKind::Miss
        }
    }

    /// The outcome of the roll `roll` made with `accuracy` against `defense`:
    /// a miss when roll and accuracy together stay below the defense,
    /// otherwise the tier reached by `roll + accuracy - defense`.
    pub open spec fn outcome(self, roll: int, accuracy: int, defense: int) -> HitKind {
        if roll + accuracy < defense {
            HitKind::Miss
        } else {
            self.tier(roll + accuracy - defense)
        }
    }

    /// The damage multiplier of a tier, in percent. A miss deals nothing.
    pub open spec fn spec_damage_percent(self, kind: HitKind) -> u32 {
        match kind {
            HitKind::Miss => 0,
            HitKind::Graze => self.graze_damage_percent,
            HitKind::Hit => self.hit_damage_percent,
            HitKind::Crit => self.crit_damage_percent,
        }
    }

    /// The experience that an actor of level `level` needs for the next
    /// level: nothing at level 0, the table's entry for a level that the
    /// table covers, and no amount at all beyond the table.
    pub open spec fn spec_xp_for_next_level(self, level: u32) -> Option<u32> {
        if level == 0 {
            Some(0u32)
        } else if level <= self.experience_for_level@.len() {
            Some(self.experience_for_level@[level - 1])
        } else {
            None
        }
    }

    /// Accepts the rules when the thresholds ascend strictly, and refuses
    /// them otherwise.
    pub fn validate(&self) -> (checked: Result<(), RulesError>)
        ensures
            checked is Ok <==> self.thresholds_ordered(),
            checked is Err ==> checked == Err::<(), RulesError>(RulesError::ThresholdsUnordered),
    {
        if self.graze_percentile < self.hit_percentile && self.hit_percentile
            < self.crit_percentile {
            Ok(())
        } else {
            Err(RulesError::ThresholdsUnordered)
        }
    }

    /// Resolves an attack whose die showed `roll`.
    pub fn resolve_attack(&self, roll: u32, accuracy: i32, defense: i32) -> (kind: HitKind)
        ensures
            kind == self.outcome(roll as int, accuracy as int, defense as int),
            roll + accuracy < defense ==> kind == HitKind::Miss,
    {
        let reached: i64 = roll as i64 + accuracy as i64;
        if reached < defense as i64 {
            return HitKind::Miss;
        }
        let result: i64 = reached - defense as i64;
        if result >= self.crit_percentile as i64 {
            HitKind::Crit
        } else if result >= self.hit_percentile as i64 {
            HitKind::Hit
        } else if result >= self.graze_percentile as i64 {
            HitKind::Graze
        } else {
            HitKind::Miss
        }
    }

    /// Rolls a hundred sided die and resolves the attack with it.
    pub fn attack_roll(&self, accuracy: i32, defense: i32) -> (kind: HitKind)
        ensures
            exists|roll: int|
                1 <= roll <= 100 && kind == #[trigger] self.outcome(
                    roll,
                    accuracy as int,
                    defense as int,
                ),
    {
        let roll = roll_d100();
        let kind = self.resolve_attack(roll, accuracy, defense);
        kind
    }

    /// The damage multiplier of a tier, in percent.
    pub fn damage_percent(&self, kind: HitKind) -> (percent: u32)
        ensures
            percent == self.spec_damage_percent(kind),
    {
        match kind {
            HitKind::Miss => 0,
            HitKind::Graze => self.graze_damage_percent,
            HitKind::Hit => self.hit_damage_percent,
            HitKind::Crit => self.crit_damage_percent,
        }
    }

    /// The experience that an actor of level `level` needs for the next level.
    pub fn get_xp_for_next_level(&self, level: u32) -> (xp: Option<u32>)
        ensures
            xp == self.spec_xp_for_next_level(level),
    {
        if level == 0 {
            Some(0)
        } else if level as usize <= self.experience_for_level.len() {
            Some(self.experience_for_level[level as usize - 1])
        } else {
            None
        }
    }
}

/// A better adjusted roll never reaches a worse tier, whatever the
/// thresholds are.
pub proof fn lemma_tier_monotonic(rules: Rules, low: int, high: int)
    requires
        low <= high,
    ensures
        rules.tier(low).rank() <= rules.tier(high).rank(),
{
}

/// Of two attacks, the one whose roll and accuracy exceed the defense by
/// more never ends in a worse tier; an attack that stays below the defense
/// is a miss.
pub proof fn lemma_outcome_monotonic(
    rules: Rules,
    roll_a: int,
    accuracy_a: int,
    defense_a: int,
    roll_b: int,
    accuracy_b: int,
    defense_b: int,
)
    requires
        roll_a + accuracy_a - defense_a <= roll_b + accuracy_b - defense_b,
    ensures
        rules.outcome(roll_a, accuracy_a, defense_a).rank() <= rules.outcome(
            roll_b,
            accuracy_b,
            defense_b,
        ).rank(),
        roll_a + accuracy_a < defense_a ==> rules.outcome(roll_a, accuracy_a, defense_a)
            == HitKind::Miss,
{
}

/// With strictly ascending thresholds the four tiers split the adjusted
/// rolls into four intervals, each tier taking exactly its own.
pub proof fn lemma_ordered_thresholds_partition(rules: Rules, result: int)
    requires
        rules.thresholds_ordered(),
    ensures
        rules.tier(result) == HitKind::Miss <==> result < rules.graze_percentile,
        rules.tier(result) == HitKind::Graze <==> rules.graze_percentile <= result
            < rules.hit_percentile,
        rules.tier(result) == HitKind::Hit <==> rules.hit_percentile <= result
            < rules.crit_percentile,
        rules.tier(result) == HitKind::Crit <==> rules.crit_percentile <= result,
{
}

} // verus!
