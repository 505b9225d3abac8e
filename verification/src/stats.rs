//! Bonuses and the stat snapshot that is derived from them.
//!
//! A snapshot is never patched: it is computed afresh from the attributes of
//! the actor, the bonuses of its race, its class levels, its equipped items
//! and its active effects. Every derived stat is the sum of what these
//! sources give, brought into the range of `i32`.

use vstd::prelude::*;
use crate::attribute::{Attribute, AttributeList};
use crate::rules::Rules;

verus! {

/// A single attack that an actor can make, with the range of its damage roll.
#[derive(Debug, Copy, Clone, PartialEq, Eq, Structural)]
pub struct Attack {
    pub min_damage: u32,
    pub max_damage: u32,
}

/// The derived stats that bonuses add to.
#[derive(Debug, Copy, Clone, PartialEq, Eq, Structural)]
pub enum Stat {
    MaxHp,
    Initiative,
    Accuracy,
    Defense,
    Armor,
}

/// What one source gives: an amount for each derived stat and possibly an
/// attack.
#[derive(Debug, Copy, Clone, PartialEq, Eq, Structural)]
pub struct BonusList {
    pub hit_points: i32,
    pub initiative: i32,
    pub accuracy: i32,
    pub defense: i32,
    pub armor: i32,
    pub attack: Option<Attack>,
}

impl BonusList {
    /// The amount that this source gives to `stat`.
    pub open spec fn amount(self, stat: Stat) -> i32 {
        match stat {
            Stat::MaxHp => self.hit_points,
            Stat::Initiative => self.initiative,
            Stat::Accuracy => self.accuracy,
            Stat::Defense => self.defense,
            Stat::Armor => self.armor,
        }
    }

    /// A source that gives nothing.
    pub fn empty() -> (bonuses: BonusList)
        ensures
            forall|stat: Stat| bonuses.amount(stat) == 0,
            bonuses.attack is None,
    {
        BonusList { hit_points: 0, initiative: 0, accuracy: 0, defense: 0, armor: 0, attack: None }
    }

    /// The amount that this source gives to `stat`.
    pub fn get(&self, stat: Stat) -> (amount: i32)
        ensures
            amount == self.amount(stat),
    {
        match stat {
            Stat::MaxHp => self.hit_points,
            Stat::Initiative => self.initiative,
            Stat::Accuracy => self.accuracy,
            Stat::Defense => self.defense,
            Stat::Armor => self.armor,
        }
    }
}

/// The bonuses of one class, held for a number of levels.
#[derive(Debug, Copy, Clone, PartialEq, Eq, Structural)]
pub struct ClassLevels {
    pub bonuses_per_level: BonusList,
    pub level: u32,
}

/// The sum of `weight` over the entries of `list`.
pub open spec fn total_by<T>(list: Seq<T>, weight: spec_fn(T) -> int) -> int
    decreases list.len(),
{
    if list.len() == 0 {
        0
    } else {
        total_by(list.drop_last(), weight) + weight(list.last())
    }
}

/// What a plain source gives to `stat`.
pub open spec fn bonus_weight(stat: Stat) -> spec_fn(BonusList) -> int {
    |bonuses: BonusList| bonuses.amount(stat) as int
}

/// What the levels of a class give to `stat`: the bonus per level, once for
/// each level.
pub open spec fn class_weight(stat: Stat) -> spec_fn(ClassLevels) -> int {
    |class: ClassLevels| class.bonuses_per_level.amount(stat) * class.level
}

/// What the sources in `list` give to `stat`, all together.
pub open spec fn bonus_total(list: Seq<BonusList>, stat: Stat) -> int {
    total_by(list, bonus_weight(stat))
}

/// What the class levels in `list` give to `stat`, all together.
pub open spec fn class_total(list: Seq<ClassLevels>, stat: Stat) -> int {
    total_by(list, class_weight(stat))
}

/// The attribute that feeds a derived stat, if any: endurance feeds the hit
/// points, perception the initiative and the accuracy, dexterity the
/// defense. Armor comes from bonuses alone.
pub open spec fn governing_attribute(stat: Stat) -> Option<Attribute> {
    match stat {
        Stat::MaxHp => Some(Attribute::Endurance),
        Stat::Initiative => Some(Attribute::Perception),
        Stat::Accuracy => Some(Attribute::Perception),
        Stat::Defense => Some(Attribute::Dexterity),
        Stat::Armor => None,
    }
}

/// What the attributes give to `stat`: the bonus of the governing attribute
/// over the baseline of the rules.
pub open spec fn attribute_term(attributes: AttributeList, stat: Stat, base_attribute: int) -> int {
    match governing_attribute(stat) {
        Some(attr) => attributes.spec_bonus(attr, base_attribute),
        None => 0,
    }
}

/// What the rules give to `stat` before any bonus: the base initiative.
pub open spec fn base_term(rules: Rules, stat: Stat) -> int {
    match stat {
        Stat::Initiative => rules.base_initiative as int,
        _ => 0,
    }
}

/// The exact sum of everything that feeds `stat`.
pub open spec fn stat_total(
    attributes: AttributeList,
    race: BonusList,
    classes: Seq<ClassLevels>,
    equipped: Seq<BonusList>,
    effects: Seq<BonusList>,
    rules: Rules,
    stat: Stat,
) -> int {
    base_term(rules, stat) + attribute_term(attributes, stat, rules.base_attribute as int)
        + race.amount(stat) + class_total(classes, stat) + bonus_total(equipped, stat)
        + bonus_total(effects, stat)
}

/// `value` brought into the range of `i32`.
pub open spec fn clamp_i32(value: int) -> i32 {
    if value < i32::MIN {
        i32::MIN
    } else if value > i32::MAX {
        i32::MAX
    } else {
        value as i32
    }
}

/// The attacks that the equipped items give, in the order of the items.
pub open spec fn weapon_attacks(equipped: Seq<BonusList>) -> Seq<Attack>
    decreases equipped.len(),
{
    if equipped.len() == 0 {
        Seq::<Attack>::empty()
    } else {
        let rest = weapon_attacks(equipped.drop_last());
        match equipped.last().attack {
            Some(attack) => rest.push(attack),
            None => rest,
        }
    }
}

/// The attacks of an actor: those of its equipped items, or else the attack
/// of its race where the race has one.
pub open spec fn attacks_of(race: BonusList, equipped: Seq<BonusList>) -> Seq<Attack> {
    let weapons = weapon_attacks(equipped);
    if weapons.len() > 0 {
        weapons
    } else {
        match race.attack {
            Some(attack) => seq![attack],
            None => Seq::<Attack>::empty(),
        }
    }
}

/// The damage multiplier of an actor in percent: that of the rules for
/// wielding two weapons when more than one equipped item gives an attack,
/// and 100 otherwise.
pub open spec fn damage_percent_of(equipped: Seq<BonusList>, rules: Rules) -> u32 {
    if weapon_attacks(equipped).len() > 1 {
        rules.dual_wield_damage_percent
    } else {
        100
    }
}

/// The mathematical content of a stat snapshot.
pub struct StatListView {
    pub attributes: AttributeList,
    pub max_hp: i32,
    pub initiative: i32,
    pub accuracy: i32,
    pub defense: i32,
    pub armor: i32,
    pub attacks: Seq<Attack>,
    pub damage_percent: u32,
}

impl StatListView {
    /// The value of a derived stat.
    pub open spec fn stat(self, stat: Stat) -> i32 {
        match stat {
            Stat::MaxHp => self.max_hp,
            Stat::Initiative => self.initiative,
            Stat::Accuracy => self.accuracy,
            Stat::Defense => self.defense,
            Stat::Armor => self.armor,
        }
    }
}

/// The snapshot before anything has been computed: no stat has a value,
/// there is no attack, and damage is dealt as rolled.
pub open spec fn blank(attributes: AttributeList) -> StatListView {
    StatListView {
        attributes,
        max_hp: 0,
        initiative: 0,
        accuracy: 0,
        defense: 0,
        armor: 0,
        attacks: Seq::<Attack>::empty(),
        damage_percent: 100,
    }
}

/// The snapshot that the given sources determine.
pub open spec fn computed(
    attributes: AttributeList,
    race: BonusList,
    classes: Seq<ClassLevels>,
    equipped: Seq<BonusList>,
    effects: Seq<BonusList>,
    rules: Rules,
) -> StatListView {
    StatListView {
        attributes,
        max_hp: clamp_i32(
            stat_total(attributes, race, classes, equipped, effects, rules, Stat::MaxHp),
        ),
        initiative: clamp_i32(
            stat_total(attributes, race, classes, equipped, effects, rules, Stat::Initiative),
        ),
        accuracy: clamp_i32(
            stat_total(attributes, race, classes, equipped, effects, rules, Stat::Accuracy),
        ),
        defense: clamp_i32(
            stat_total(attributes, race, classes, equipped, effects, rules, Stat::Defense),
        ),
        armor: clamp_i32(
            stat_total(attributes, race, classes, equipped, effects, rules, Stat::Armor),
        ),
        attacks: attacks_of(race, equipped),
        damage_percent: damage_percent_of(equipped, rules),
    }
}

/// The derived stats of an actor.
#[derive(Debug, Clone, PartialEq, Eq)]
pub struct StatList {
    pub attributes: AttributeList,
    pub max_hp: i32,
    pub initiative: i32,
    pub accuracy: i32,
    pub defense: i32,
    pub armor: i32,
    pub attacks: Vec<Attack>,
    pub damage_percent: u32,
}

impl View for StatList {
    type V = StatListView;

    open spec fn view(&self) -> StatListView {
        StatListView {
            attributes: self.attributes,
            max_hp: self.max_hp,
            initiative: self.initiative,
            accuracy: self.accuracy,
            defense: self.defense,
            armor: self.armor,
            attacks: self.attacks@,
            damage_percent: self.damage_percent,
        }
    }
}

/// What the sources in `list` give to `stat`.
fn sum_bonuses(list: &Vec<BonusList>, stat: Stat) -> (total: i128)
    ensures
        total == bonus_total(list@, stat),
        -(list.len() * 0x8000_0000) <= total <= list.len() * 0x8000_0000,
{
    let mut total: i128 = 0;
    let mut i: usize = 0;
    while i < list.len()
        invariant
            0 <= i <= list.len(),
            total == bonus_total(list@.take(i as int), stat),
            -(i * 0x8000_0000) <= total <= i * 0x8000_0000,
        decreases list.len() - i,
    {
        let amount: i32 = list[i].get(stat);
        proof {
            assert(list@.take(i + 1).drop_last() =~= list@.take(i as int));
        }
        total = total + amount as i128;
        i += 1;
    }
    assert(list@.take(i as int) =~= list@);
    total
}

/// What the class levels in `list` give to `stat`.
fn sum_classes(list: &Vec<ClassLevels>, stat: Stat) -> (total: i128)
    ensures
        total == class_total(list@, stat),
{
    let mut total: i128 = 0;
    let mut i: usize = 0;
    while i < list.len()
        invariant
            0 <= i <= list.len(),
            total == class_total(list@.take(i as int), stat),
            -(i * 0x8000_0000_0000_0000) <= total <= i * 0x8000_0000_0000_0000,
        decreases list.len() - i,
    {
        let per_level: i64 = list[i].bonuses_per_level.get(stat) as i64;
        let level: i64 = list[i].level as i64;
        assert(-0x8000_0000_0000_0000 <= per_level * level <= 0x8000_0000_0000_0000 - 1)
            by (nonlinear_arith)
            requires
                -0x8000_0000 <= per_level <= 0x7fff_ffff,
                0 <= level <= 0xffff_ffff,
        ;
        let term: i64 = per_level * level;
        proof {
            assert(list@.take(i + 1).drop_last() =~= list@.take(i as int));
        }
        total = total + term as i128;
        i += 1;
    }
    assert(list@.take(i as int) =~= list@);
    total
}

/// The sum of `large` and `small`, brought into the range of `i32`.
fn clamped_sum(large: i128, small: i128) -> (sum: i32)
    requires
        -0x10_0000_0000_0000_0000_0000_0000 <= small <= 0x10_0000_0000_0000_0000_0000_0000,
    ensures
        sum == clamp_i32(large + small),
{
    if large > 0x20_0000_0000_0000_0000_0000_0000 {
        i32::MAX
    } else if large < -0x20_0000_0000_0000_0000_0000_0000 {
        i32::MIN
    } else {
        let exact: i128 = large + small;
        if exact > i32::MAX as i128 {
            i32::MAX
        } else if exact < i32::MIN as i128 {
            i32::MIN
        } else {
            exact as i32
        }
    }
}

/// What the attributes give to `stat`.
fn attribute_bonus(attributes: &AttributeList, stat: Stat, base_attribute: i32) -> (term: i64)
    ensures
        term == attribute_term(*attributes, stat, base_attribute as int),
{
    match stat {
        Stat::MaxHp => attributes.get(Attribute::Endurance) as i64 - base_attribute as i64,
        Stat::Initiative => attributes.get(Attribute::Perception) as i64 - base_attribute as i64,
        Stat::Accuracy => attributes.get(Attribute::Perception) as i64 - base_attribute as i64,
        Stat::Defense => attributes.get(Attribute::Dexterity) as i64 - base_attribute as i64,
        Stat::Armor => 0,
    }
}

/// One derived stat from all that feeds it.
fn compute_stat(
    attributes: &AttributeList,
    race: &BonusList,
    classes: &Vec<ClassLevels>,
    equipped: &Vec<BonusList>,
    effects: &Vec<BonusList>,
    rules: &Rules,
    stat: Stat,
) -> (value: i32)
    ensures
        value == clamp_i32(
            stat_total(*attributes, *race, classes@, equipped@, effects@, *rules, stat),
        ),
{
    let base: i128 = match stat {
        Stat::Initiative => rules.base_initiative as i128,
        _ => 0,
    };
    let from_attributes: i128 = attribute_bonus(attributes, stat, rules.base_attribute) as i128;
    let from_race: i128 = race.get(stat) as i128;
    let from_equipped: i128 = sum_bonuses(equipped, stat);
    let from_effects: i128 = sum_bonuses(effects, stat);
    let from_classes: i128 = sum_classes(classes, stat);
    let small: i128 = base + from_attributes + from_race + from_equipped + from_effects;
    clamped_sum(from_classes, small)
}

/// The attacks that the equipped items give, in the order of the items.
fn collect_weapon_attacks(equipped: &Vec<BonusList>) -> (attacks: Vec<Attack>)
    ensures
        attacks@ == weapon_attacks(equipped@),
{
    let mut attacks: Vec<Attack> = Vec::new();
    let mut i: usize = 0;
    while i < equipped.len()
        invariant
            0 <= i <= equipped.len(),
            attacks@ == weapon_attacks(equipped@.take(i as int)),
        decreases equipped.len() - i,
    {
        proof {
            assert(equipped@.take(i + 1).drop_last() =~= equipped@.take(i as int));
        }
        match equipped[i].attack {
            Some(attack) => attacks.push(attack),
            None => {},
        }
        i += 1;
    }
    assert(equipped@.take(i as int) =~= equipped@);
    attacks
}

impl StatList {
    /// The snapshot of an actor with the given attributes before anything
    /// has been computed.
    pub fn new(attributes: AttributeList) -> (stats: StatList)
        ensures
            stats@ == blank(attributes),
    {
        let stats = StatList {
            attributes,
            max_hp: 0,
            initiative: 0,
            accuracy: 0,
            defense: 0,
            armor: 0,
            attacks: Vec::new(),
            damage_percent: 100,
        };
        stats
    }

    /// Computes the snapshot from its sources. The result depends on nothing
    /// but the arguments.
    pub fn compute(
        attributes: AttributeList,
        race: &BonusList,
        classes: &Vec<ClassLevels>,
        equipped: &Vec<BonusList>,
        effects: &Vec<BonusList>,
        rules: &Rules,
    ) -> (stats: StatList)
        ensures
            stats@ == computed(attributes, *race, classes@, equipped@, effects@, *rules),
    {
        let mut attacks = collect_weapon_attacks(equipped);
        let damage_percent: u32 = if attacks.len() > 1 {
            rules.dual_wield_damage_percent
        } else {
            100
        };
        if attacks.len() == 0 {
            match race.attack {
                Some(attack) => attacks.push(attack),
                None => {},
            }
        }
        let stats = StatList {
            attributes,
            max_hp: compute_stat(&attributes, race, classes, equipped, effects, rules, Stat::MaxHp),
            initiative: compute_stat(
                &attributes,
                race,
                classes,
                equipped,
                effects,
                rules,
                Stat::Initiative,
            ),
            accuracy: compute_stat(
                &attributes,
                race,
                classes,
                equipped,
                effects,
                rules,
                Stat::Accuracy,
            ),
            defense: compute_stat(
                &attributes,
                race,
                classes,
                equipped,
                effects,
                rules,
                Stat::Defense,
            ),
            armor: compute_stat(&attributes, race, classes, equipped, effects, rules, Stat::Armor),
            attacks,
            damage_percent,
        };
        assert(stats@.attacks =~= attacks_of(*race, equipped@));
        stats
    }

    /// The value of a derived stat.
    pub fn get(&self, stat: Stat) -> (value: i32)
        ensures
            value == self@.stat(stat),
    {
        match stat {
            Stat::MaxHp => self.max_hp,
            Stat::Initiative => self.initiative,
            Stat::Accuracy => self.accuracy,
            Stat::Defense => self.defense,
            Stat::Armor => self.armor,
        }
    }
}

/// A further entry adds its weight to the sum.
pub proof fn lemma_total_by_push<T>(list: Seq<T>, entry: T, weight: spec_fn(T) -> int)
    ensures
        total_by(list.push(entry), weight) == total_by(list, weight) + weight(entry),
{
    assert(list.push(entry).drop_last() =~= list);
    assert(list.push(entry).last() == entry);
}

/// The sum over two lists joined is the sum of their sums.
pub proof fn lemma_total_by_concat<T>(front: Seq<T>, back: Seq<T>, weight: spec_fn(T) -> int)
    ensures
        total_by(front + back, weight) == total_by(front, weight) + total_by(back, weight),
    decreases back.len(),
{
    if back.len() == 0 {
        assert(front + back =~= front);
    } else {
        lemma_total_by_concat(front, back.drop_last(), weight);
        assert((front + back).drop_last() =~= front + back.drop_last());
        assert((front + back).last() == back.last());
    }
}

/// Taking one entry out lowers the sum by the weight of that entry.
pub proof fn lemma_total_by_remove<T>(list: Seq<T>, at: int, weight: spec_fn(T) -> int)
    requires
        0 <= at < list.len(),
    ensures
        total_by(list, weight) == total_by(list.remove(at), weight) + weight(list[at]),
{
    let front = list.take(at);
    let back = list.skip(at + 1);
    assert(list =~= front.push(list[at]) + back);
    assert(list.remove(at) =~= front + back);
    lemma_total_by_concat(front.push(list[at]), back, weight);
    lemma_total_by_concat(front, back, weight);
    lemma_total_by_push(front, list[at], weight);
}

/// The sum does not depend on the order of the entries: two lists that hold
/// the same entries equally often have the same sum.
pub proof fn lemma_total_by_permutation<T>(a: Seq<T>, b: Seq<T>, weight: spec_fn(T) -> int)
    requires
        a.to_multiset() == b.to_multiset(),
    ensures
        total_by(a, weight) == total_by(b, weight),
    decreases a.len(),
{
    a.to_multiset_ensures();
    b.to_multiset_ensures();
    if a.len() == 0 {
        assert(b.len() == 0);
    } else {
        let entry = a.last();
        assert(a.contains(entry));
        assert(b.to_multiset().count(entry) > 0);
        assert(b.contains(entry));
        let at = choose|at: int| 0 <= at < b.len() && b[at] == entry;
        let rest_a = a.drop_last();
        let rest_b = b.remove(at);
        assert(rest_a =~= a.remove(a.len() - 1));
        assert(rest_a.to_multiset() =~= a.to_multiset().remove(entry));
        assert(rest_b.to_multiset() =~= b.to_multiset().remove(entry));
        lemma_total_by_permutation(rest_a, rest_b, weight);
        lemma_total_by_remove(b, at, weight);
    }
}

/// The derived stats do not depend on the order in which the sources are
/// applied: reordering the class levels, and distributing the same bonuses
/// over equipped items and effects in another way or another order, leaves
/// every stat of the snapshot as it is.
pub proof fn lemma_computed_order_independent(
    attributes: AttributeList,
    race: BonusList,
    classes_a: Seq<ClassLevels>,
    equipped_a: Seq<BonusList>,
    effects_a: Seq<BonusList>,
    classes_b: Seq<ClassLevels>,
    equipped_b: Seq<BonusList>,
    effects_b: Seq<BonusList>,
    rules: Rules,
    stat: Stat,
)
    requires
        classes_a.to_multiset() == classes_b.to_multiset(),
        (equipped_a + effects_a).to_multiset() == (equipped_b + effects_b).to_multiset(),
    ensures
        stat_total(attributes, race, classes_a, equipped_a, effects_a, rules, stat) == stat_total(
            attributes,
            race,
            classes_b,
            equipped_b,
            effects_b,
            rules,
            stat,
        ),
        computed(attributes, race, classes_a, equipped_a, effects_a, rules).stat(stat) == computed(
            attributes,
            race,
            classes_b,
            equipped_b,
            effects_b,
            rules,
        ).stat(stat),
{
    lemma_total_by_permutation(classes_a, classes_b, class_weight(stat));
    lemma_total_by_permutation(
        equipped_a + effects_a,
        equipped_b + effects_b,
        bonus_weight(stat),
    );
    lemma_total_by_concat(equipped_a, effects_a, bonus_weight(stat));
    lemma_total_by_concat(equipped_b, effects_b, bonus_weight(stat));
}

/// Applying the effects before the equipped items gives the same stats as
/// applying the equipped items first.
pub proof fn lemma_sources_commute(
    attributes: AttributeList,
    race: BonusList,
    classes: Seq<ClassLevels>,
    first: Seq<BonusList>,
    second: Seq<BonusList>,
    rules: Rules,
    stat: Stat,
)
    ensures
        stat_total(attributes, race, classes, first, second, rules, stat) == stat_total(
            attributes,
            race,
            classes,
            second,
            first,
            rules,
            stat,
        ),
{
}

} // verus!
