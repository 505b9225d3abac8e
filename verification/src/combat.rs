//! Attacks between actors: rolls, damage, and what the death of the target
//! yields.
//!
//! Every function that rolls dice stands beside one that takes the rolled
//! numbers as arguments and says exactly what follows from them.

use vstd::prelude::*;
use crate::actor::{hp_after, xp_after, ActorState};
use crate::dice::{random_in, roll_d100};
use crate::inventory::Item;
use crate::loot::{loot_outcome, passes};
use crate::rules::{HitKind, Rules};
use crate::stats::{Attack, StatList, StatListView};

verus! {

/// The numbers rolled for one attack: the hundred sided die for the hit, and
/// the damage before armor and multipliers.
#[derive(Debug, Copy, Clone, PartialEq, Eq, Structural)]
pub struct AttackRoll {
    pub hit_roll: u32,
    pub damage_roll: u32,
}

/// How one attack ended: the tier it reached and the damage it dealt.
#[derive(Debug, Copy, Clone, PartialEq, Eq, Structural)]
pub struct AttackOutcome {
    pub kind: HitKind,
    pub damage: u32,
}

/// What an attack on a target yields: the outcome of each single attack,
/// and the loot that the target leaves behind if it died.
#[derive(Debug, Clone, PartialEq, Eq)]
pub struct AttackResult {
    pub outcomes: Vec<AttackOutcome>,
    pub loot: Vec<Item>,
}

/// What is left of a damage roll after armor: armor takes its amount away,
/// but never more than the roll, and armor below zero takes nothing.
pub open spec fn mitigated(damage_roll: u32, armor: i32) -> int {
    if armor <= 0 {
        damage_roll as int
    } else if armor >= damage_roll {
        0
    } else {
        damage_roll - armor
    }
}

/// The damage that a roll deals: the roll after armor, times the multiplier
/// of the tier and the multiplier of the attacker, both in percent, rounded
/// down and capped at the largest `u32`.
pub open spec fn damage_dealt(
    damage_roll: u32,
    armor: i32,
    tier_percent: u32,
    wield_percent: u32,
) -> u32 {
    let scaled = mitigated(damage_roll, armor) * tier_percent * wield_percent / 10000;
    if scaled > u32::MAX {
        u32::MAX
    } else {
        scaled as u32
    }
}

/// How an attack with the numbers `roll` ends for an attacker with the
/// stats `attacker` against a target with the stats `target`.
pub open spec fn outcome_of(
    attacker: StatListView,
    target: StatListView,
    rules: Rules,
    roll: AttackRoll,
) -> AttackOutcome {
    let kind = rules.outcome(roll.hit_roll as int, attacker.accuracy as int, target.defense as int);
    AttackOutcome {
        kind,
        damage: if kind == HitKind::Miss {
            0
        } else {
            damage_dealt(
                roll.damage_roll,
                target.armor,
                rules.spec_damage_percent(kind),
                attacker.damage_percent,
            )
        },
    }
}

/// How many attacks are made with the numbers `rolls`: one for each attack
/// of the attacker that there is a roll for.
pub open spec fn attacks_made(attacker: StatListView, rolls: Seq<AttackRoll>) -> int {
    if attacker.attacks.len() <= rolls.len() {
        attacker.attacks.len() as int
    } else {
        rolls.len() as int
    }
}

/// The outcomes of the attacks made with the numbers `rolls`, in order.
pub open spec fn outcomes_of(
    attacker: StatListView,
    target: StatListView,
    rules: Rules,
    rolls: Seq<AttackRoll>,
) -> Seq<AttackOutcome> {
    Seq::new(
        attacks_made(attacker, rolls) as nat,
        |i: int| outcome_of(attacker, target, rules, rolls[i]),
    )
}

/// The hit points left of `hp` after the damage of each of `outcomes` has
/// been taken, one after the other. An attack that dealt no damage leaves
/// the hit points as they are.
pub open spec fn hp_after_all(hp: i32, outcomes: Seq<AttackOutcome>) -> i32
    decreases outcomes.len(),
{
    if outcomes.len() == 0 {
        hp
    } else {
        let before = hp_after_all(hp, outcomes.drop_last());
        if outcomes.last().damage > 0 {
            hp_after(before, outcomes.last().damage)
        } else {
            before
        }
    }
}

/// Whether any of `outcomes` dealt damage.
pub open spec fn any_damage(outcomes: Seq<AttackOutcome>) -> bool {
    exists|i: int| 0 <= i < outcomes.len() && outcomes[i].damage > 0
}

/// The outcome reported for an attack on a target that is dead already.
pub open spec fn no_attack() -> Seq<AttackOutcome> {
    seq![AttackOutcome { kind: HitKind::Miss, damage: 0 }]
}

/// Whether `roll` is a pair of numbers that may be rolled for `attack`: the
/// hit roll on the hundred sided die, the damage roll within the range of
/// the attack, or at its lower end where the range is empty.
pub open spec fn roll_allowed(attack: Attack, roll: AttackRoll) -> bool {
    &&& 1 <= roll.hit_roll <= 100
    &&& if attack.min_damage < attack.max_damage {
        attack.min_damage <= roll.damage_roll <= attack.max_damage
    } else {
        roll.damage_roll == attack.min_damage
    }
}

/// Whether `rolls` holds an allowed roll for each attack of `attacks`.
pub open spec fn rolls_allowed(attacks: Seq<Attack>, rolls: Seq<AttackRoll>) -> bool {
    &&& rolls.len() == attacks.len()
    &&& forall|i: int| 0 <= i < rolls.len() ==> roll_allowed(attacks[i], #[trigger] rolls[i])
}

/// Whether slaying `target` is due a reward: it has no hit points left and
/// a reward is authored for it.
pub open spec fn reward_due(target: ActorState) -> bool {
    target.hp <= 0 && target.actor.reward is Some
}

/// The loot that `target` leaves behind when the die shows `gate_roll` and
/// the numbers `loot_rolls` are drawn from its table. There is none unless a
/// reward is due, the reward has a loot table, and the prop that holds
/// dropped loot is known.
pub open spec fn loot_of(
    target: ActorState,
    loot_prop_known: bool,
    gate_roll: u32,
    loot_rolls: Seq<u32>,
) -> Seq<Item> {
    if loot_rolled(target, loot_prop_known) {
        loot_outcome(
            target.actor.reward->0.loot->0.entries@,
            target.actor.reward->0.loot_chance,
            gate_roll,
            loot_rolls,
        )
    } else {
        Seq::<Item>::empty()
    }
}

/// Whether dice are rolled for the loot of `target`: a reward is due, the
/// reward has a loot table, and the prop that holds dropped loot is known.
pub open spec fn loot_rolled(target: ActorState, loot_prop_known: bool) -> bool {
    reward_due(target) && target.actor.reward->0.loot is Some && loot_prop_known
}

/// Whether `loot_rolls` are numbers that may be drawn for the loot of
/// `target` after the die has shown `gate_roll`: numbers that the loot table
/// allows where the die passes the chance of the reward. Where it does not,
/// no numbers are drawn.
pub open spec fn loot_rolls_allowed(
    target: ActorState,
    gate_roll: u32,
    loot_rolls: Seq<u32>,
) -> bool {
    if passes(target.actor.reward->0.loot_chance, gate_roll) {
        target.actor.reward->0.loot->0.rolls_allowed(loot_rolls)
    } else {
        loot_rolls.len() == 0
    }
}

/// Whether an attack with the given numbers turns `attacker` and `target`
/// into `attacker_after` and `target_after` and yields `outcomes` and `loot`.
/// A target that is dead already is not attacked: nothing changes, and a
/// single miss is reported. Otherwise the target takes the attacks, only its
/// hit points changing, and then its death, if it died, gives the attacker
/// the experience of its reward, with the stats computed afresh, and yields
/// its loot.
pub open spec fn attack_effect(
    attacker: ActorState,
    target: ActorState,
    attacker_after: ActorState,
    target_after: ActorState,
    rules: Rules,
    loot_prop_known: bool,
    rolls: Seq<AttackRoll>,
    gate_roll: u32,
    loot_rolls: Seq<u32>,
    outcomes: Seq<AttackOutcome>,
    loot: Seq<Item>,
) -> bool {
    if target.hp <= 0 {
        &&& outcomes == no_attack()
        &&& loot.len() == 0
        &&& attacker_after == attacker
        &&& target_after == target
    } else {
        &&& outcomes == outcomes_of(attacker.stats@, target.stats@, rules, rolls)
        &&& target_after == (ActorState { hp: hp_after_all(target.hp, outcomes), ..target })
        &&& loot == loot_of(target_after, loot_prop_known, gate_roll, loot_rolls)
        &&& reward_due(target_after) ==> attacker_after.recomputed_from(
            ActorState { xp: xp_after(attacker.xp, target.actor.reward->0.xp), ..attacker },
            rules,
        )
        &&& !reward_due(target_after) ==> attacker_after == attacker
    }
}

/// The damage that a roll deals.
pub fn compute_damage(
    damage_roll: u32,
    armor: i32,
    tier_percent: u32,
    wield_percent: u32,
) -> (damage: u32)
    ensures
        damage == damage_dealt(damage_roll, armor, tier_percent, wield_percent),
{
    let after_armor: u128 = if armor <= 0 {
        damage_roll as u128
    } else if armor as i64 >= damage_roll as i64 {
        0
    } else {
        (damage_roll as i64 - armor as i64) as u128
    };
    assert(after_armor * tier_percent <= 0xffff_ffff * 0xffff_ffff) by (nonlinear_arith)
        requires
            0 <= after_armor <= 0xffff_ffff,
            0 <= tier_percent <= 0xffff_ffff,
    ;
    let by_tier: u128 = after_armor * tier_percent as u128;
    assert(by_tier * wield_percent <= 0xffff_ffff * 0xffff_ffff * 0xffff_ffff)
        by (nonlinear_arith)
        requires
            0 <= by_tier <= 0xffff_ffff * 0xffff_ffff,
            0 <= wield_percent <= 0xffff_ffff,
    ;
    let scaled: u128 = by_tier * wield_percent as u128 / 10000;
    if scaled > u32::MAX as u128 {
        u32::MAX
    } else {
        scaled as u32
    }
}

/// Whether any of `outcomes` dealt damage.
pub fn dealt_damage(outcomes: &Vec<AttackOutcome>) -> (any: bool)
    ensures
        any == any_damage(outcomes@),
{
    let mut i: usize = 0;
    while i < outcomes.len()
        invariant
            0 <= i <= outcomes.len(),
            forall|k: int| 0 <= k < i ==> outcomes@[k].damage == 0,
        decreases outcomes.len() - i,
    {
        if outcomes[i].damage > 0 {
            return true;
        }
        i += 1;
    }
    false
}

impl ActorState {
    /// Rolls the numbers for each attack of the actor.
    pub fn roll_attacks(&self) -> (rolls: Vec<AttackRoll>)
        ensures
            rolls_allowed(self.stats@.attacks, rolls@),
    {
        let mut rolls: Vec<AttackRoll> = Vec::new();
        let mut i: usize = 0;
        while i < self.stats.attacks.len()
            invariant
                0 <= i <= self.stats.attacks.len(),
                rolls@.len() == i,
                forall|k: int|
                    0 <= k < i ==> roll_allowed(self.stats.attacks@[k], #[trigger] rolls@[k]),
            decreases self.stats.attacks.len() - i,
        {
            let attack = self.stats.attacks[i];
            let hit_roll = roll_d100();
            let damage_roll = if attack.min_damage < attack.max_damage {
                if attack.max_damage == u32::MAX {
                    random_in(attack.min_damage, attack.max_damage)
                } else {
                    random_in(attack.min_damage, attack.max_damage + 1)
                }
            } else {
                attack.min_damage
            };
            rolls.push(AttackRoll { hit_roll, damage_roll });
            i += 1;
        }
        rolls
    }

    /// Takes the attacks that an attacker with the stats `attacker` makes
    /// with the numbers `rolls`. Only the hit points change.
    pub fn suffer(
        &mut self,
        attacker: &StatList,
        rules: &Rules,
        rolls: &Vec<AttackRoll>,
    ) -> (outcomes: Vec<AttackOutcome>)
        ensures
            outcomes@ == outcomes_of(attacker@, old(self).stats@, *rules, rolls@),
            *final(self) == (ActorState {
                hp: hp_after_all(old(self).hp, outcomes@),
                ..*old(self)
            }),
    {
        let count = if attacker.attacks.len() <= rolls.len() {
            attacker.attacks.len()
        } else {
            rolls.len()
        };
        let mut outcomes: Vec<AttackOutcome> = Vec::new();
        let mut i: usize = 0;
        while i < count
            invariant
                0 <= i <= count,
                count == attacks_made(attacker@, rolls@),
                count <= rolls.len(),
                outcomes@.len() == i,
                forall|k: int|
                    0 <= k < i ==> outcomes@[k] == outcome_of(
                        attacker@,
                        old(self).stats@,
                        *rules,
                        rolls@[k],
                    ),
                *self == (ActorState { hp: hp_after_all(old(self).hp, outcomes@), ..*old(self) }),
            decreases count - i,
        {
            let roll = rolls[i];
            let kind = rules.resolve_attack(roll.hit_roll, attacker.accuracy, self.stats.defense);
            let damage = match kind {
                HitKind::Miss => 0,
                _ => compute_damage(
                    roll.damage_roll,
                    self.stats.armor,
                    rules.damage_percent(kind),
                    attacker.damage_percent,
                ),
            };
            let ghost before = outcomes@;
            outcomes.push(AttackOutcome { kind, damage });
            proof {
                assert(outcomes@.drop_last() =~= before);
            }
            if damage > 0 {
                self.remove_hp(damage);
            }
            i += 1;
        }
        outcomes
    }

    /// What the death of `target` yields when the die shows `gate_roll` and
    /// the numbers `loot_rolls` are drawn. Where a reward is due, the actor
    /// gains its experience and has its stats computed afresh, and the loot
    /// is handed back; where none is due, nothing happens.
    pub fn check_death_with_rolls(
        &mut self,
        target: &ActorState,
        rules: &Rules,
        loot_prop_known: bool,
        gate_roll: u32,
        loot_rolls: &Vec<u32>,
    ) -> (loot: Vec<Item>)
        ensures
            loot@ == loot_of(*target, loot_prop_known, gate_roll, loot_rolls@),
            reward_due(*target) ==> final(self).recomputed_from(
                ActorState {
                    xp: xp_after(old(self).xp, target.actor.reward->0.xp),
                    ..*old(self)
                },
                *rules,
            ),
            !reward_due(*target) ==> *final(self) == *old(self),
    {
        if target.hp > 0 {
            return Vec::new();
        }
        let reward = match &target.actor.reward {
            None => {
                return Vec::new();
            },
            Some(reward) => reward,
        };
        self.add_xp(reward.xp, rules);
        let table = match &reward.loot {
            None => {
                return Vec::new();
            },
            Some(table) => table,
        };
        if !loot_prop_known {
            return Vec::new();
        }
        table.resolve(reward.loot_chance, gate_roll, loot_rolls)
    }

    /// What the death of `target` yields, with the loot rolled. The dice are
    /// rolled only where there is loot to roll for.
    pub fn check_death(
        &mut self,
        target: &ActorState,
        rules: &Rules,
        loot_prop_known: bool,
    ) -> (loot: Vec<Item>)
        ensures
            exists|gate_roll: u32, loot_rolls: Seq<u32>|
                {
                    &&& loot_rolled(*target, loot_prop_known) ==> 1 <= gate_roll <= 100
                        && loot_rolls_allowed(*target, gate_roll, loot_rolls)
                    &&& loot@ == #[trigger] loot_of(*target, loot_prop_known, gate_roll, loot_rolls)
                },
            reward_due(*target) ==> final(self).recomputed_from(
                ActorState {
                    xp: xp_after(old(self).xp, target.actor.reward->0.xp),
                    ..*old(self)
                },
                *rules,
            ),
            !reward_due(*target) ==> *final(self) == *old(self),
    {
        let (gate_roll, loot_rolls) = roll_loot(target, loot_prop_known);
        let loot = self.check_death_with_rolls(
            target,
            rules,
            loot_prop_known,
            gate_roll,
            &loot_rolls,
        );
        loot
    }

    /// Attacks `target` with the numbers given: `rolls` for the attacks,
    /// `gate_roll` and `loot_rolls` for the loot.
    pub fn attack_with_rolls(
        &mut self,
        target: &mut ActorState,
        rules: &Rules,
        loot_prop_known: bool,
        rolls: &Vec<AttackRoll>,
        gate_roll: u32,
        loot_rolls: &Vec<u32>,
    ) -> (result: AttackResult)
        ensures
            attack_effect(
                *old(self),
                *old(target),
                *final(self),
                *final(target),
                *rules,
                loot_prop_known,
                rolls@,
                gate_roll,
                loot_rolls@,
                result.outcomes@,
                result.loot@,
            ),
    {
        if target.hp <= 0 {
            let mut outcomes: Vec<AttackOutcome> = Vec::new();
            outcomes.push(AttackOutcome { kind: HitKind::Miss, damage: 0 });
            return AttackResult { outcomes, loot: Vec::new() };
        }
        let outcomes = target.suffer(&self.stats, rules, rolls);
        let loot = self.check_death_with_rolls(
            target,
            rules,
            loot_prop_known,
            gate_roll,
            loot_rolls,
        );
        AttackResult { outcomes, loot }
    }

    /// Attacks `target`, rolling the dice for each attack of the actor and
    /// for the loot. No dice are rolled against a target that is dead
    /// already.
    pub fn attack(
        &mut self,
        target: &mut ActorState,
        rules: &Rules,
        loot_prop_known: bool,
    ) -> (result: AttackResult)
        ensures
            exists|rolls: Seq<AttackRoll>, gate_roll: u32, loot_rolls: Seq<u32>|
                {
                    &&& old(target).hp > 0 ==> {
                        &&& rolls_allowed(old(self).stats@.attacks, rolls)
                        &&& loot_rolled(*final(target), loot_prop_known) ==> 1 <= gate_roll
                            <= 100 && loot_rolls_allowed(*final(target), gate_roll, loot_rolls)
                    }
                    &&& #[trigger] attack_effect(
                        *old(self),
                        *old(target),
                        *final(self),
                        *final(target),
                        *rules,
                        loot_prop_known,
                        rolls,
                        gate_roll,
                        loot_rolls,
                        result.outcomes@,
                        result.loot@,
                    )
                },
    {
        if target.hp <= 0 {
            let rolls: Vec<AttackRoll> = Vec::new();
            let loot_rolls: Vec<u32> = Vec::new();
            let result = self.attack_with_rolls(
                target,
                rules,
                loot_prop_known,
                &rolls,
                1,
                &loot_rolls,
            );
            return result;
        }
        let rolls = self.roll_attacks();
        let outcomes = target.suffer(&self.stats, rules, &rolls);
        let (gate_roll, loot_rolls) = roll_loot(target, loot_prop_known);
        let loot = self.check_death_with_rolls(
            target,
            rules,
            loot_prop_known,
            gate_roll,
            &loot_rolls,
        );
        let result = AttackResult { outcomes, loot };
        assert(attack_effect(
            *old(self),
            *old(target),
            *self,
            *target,
            *rules,
            loot_prop_known,
            rolls@,
            gate_roll,
            loot_rolls@,
            result.outcomes@,
            result.loot@,
        ));
        result
    }
}

/// Rolls the die and the numbers for the loot of `target`, where there is
/// loot to roll for. Otherwise no dice are rolled.
pub fn roll_loot(target: &ActorState, loot_prop_known: bool) -> (rolled: (u32, Vec<u32>))
    ensures
        loot_rolled(*target, loot_prop_known) ==> 1 <= rolled.0 <= 100 && loot_rolls_allowed(
            *target,
            rolled.0,
            rolled.1@,
        ),
        !loot_rolled(*target, loot_prop_known) ==> rolled.0 == 1 && rolled.1@.len() == 0,
{
    if target.hp > 0 || !loot_prop_known {
        return (1, Vec::new());
    }
    match &target.actor.reward {
        Some(reward) => match &reward.loot {
            Some(table) => {
                let gate_roll = roll_d100();
                let loot_rolls = if gate_roll <= reward.loot_chance {
                    table.roll()
                } else {
                    Vec::new()
                };
                (gate_roll, loot_rolls)
            },
            None => (1, Vec::new()),
        },
        None => (1, Vec::new()),
    }
}

} // verus!
