use sulis::dice::roll_d100;
use sulis::rules::{HitKind, Rules, RulesError};

fn rules_with_thresholds(graze: u32, hit: u32, crit: u32) -> Rules {
    Rules {
        base_ap: 8,
        movement_ap: 1,
        attack_ap: 4,
        base_initiative: 5,
        graze_percentile: graze,
        hit_percentile: hit,
        crit_percentile: crit,
        graze_damage_percent: 50,
        hit_damage_percent: 100,
        crit_damage_percent: 150,
        dual_wield_damage_percent: 75,
        base_attribute: 10,
        builder_max_attribute: 18,
        builder_min_attribute: 3,
        builder_attribute_points: 10,
        experience_for_level: vec![100, 300, 600],
        loot_drop_prop: String::from("loot"),
    }
}

fn rank_of(kind: HitKind) -> u32 {
    match kind {
        HitKind::Miss => 0,
        HitKind::Graze => 1,
        HitKind::Hit => 2,
        HitKind::Crit => 3,
    }
}

#[test]
fn roll_of_fifty_with_accuracy_fifty_against_defense_forty_hits() {
    let rules = rules_with_thresholds(30, 60, 90);
    assert_eq!(rules.resolve_attack(50, 50, 40), HitKind::Hit);
}

#[test]
fn each_tier_starts_at_its_threshold() {
    let rules = rules_with_thresholds(30, 60, 90);
    assert_eq!(rules.resolve_attack(29, 0, 0), HitKind::Miss);
    assert_eq!(rules.resolve_attack(30, 0, 0), HitKind::Graze);
    assert_eq!(rules.resolve_attack(59, 0, 0), HitKind::Graze);
    assert_eq!(rules.resolve_attack(60, 0, 0), HitKind::Hit);
    assert_eq!(rules.resolve_attack(89, 0, 0), HitKind::Hit);
    assert_eq!(rules.resolve_attack(90, 0, 0), HitKind::Crit);
    assert_eq!(rules.resolve_attack(100, 0, 0), HitKind::Crit);
}

#[test]
fn roll_and_accuracy_below_defense_miss_whatever_the_thresholds() {
    let lenient = rules_with_thresholds(0, 0, 0);
    assert_eq!(lenient.resolve_attack(10, 5, 16), HitKind::Miss);
    assert_eq!(lenient.resolve_attack(10, 5, 15), HitKind::Crit);
    assert_eq!(lenient.resolve_attack(100, -200, 0), HitKind::Miss);
    let rules = rules_with_thresholds(30, 60, 90);
    for roll in 1..=100u32 {
        assert_eq!(rules.resolve_attack(roll, 0, 101), HitKind::Miss);
    }
}

#[test]
fn tier_never_falls_as_the_adjusted_roll_rises() {
    let rules = rules_with_thresholds(30, 60, 90);
    for (accuracy, defense) in [(0, 0), (50, 40), (10, 70), (-20, -30), (200, 150)] {
        let mut last = 0;
        for roll in 1..=100u32 {
            let rank = rank_of(rules.resolve_attack(roll, accuracy, defense));
            assert!(rank >= last);
            last = rank;
        }
    }
}

#[test]
fn extreme_accuracy_and_defense_do_not_overflow() {
    let rules = rules_with_thresholds(30, 60, 90);
    assert_eq!(rules.resolve_attack(1, i32::MAX, i32::MIN), HitKind::Crit);
    assert_eq!(rules.resolve_attack(100, i32::MIN, i32::MAX), HitKind::Miss);
    assert_eq!(rules.resolve_attack(u32::MAX, i32::MAX, 0), HitKind::Crit);
    let high = rules_with_thresholds(u32::MAX - 2, u32::MAX - 1, u32::MAX);
    assert_eq!(high.resolve_attack(u32::MAX, 0, 0), HitKind::Crit);
    assert_eq!(high.resolve_attack(u32::MAX, 0, 1), HitKind::Hit);
    assert_eq!(high.resolve_attack(u32::MAX, 0, 2), HitKind::Graze);
    assert_eq!(high.resolve_attack(u32::MAX, 0, 3), HitKind::Miss);
}

#[test]
fn thresholds_out_of_order_are_refused_by_the_check() {
    assert_eq!(rules_with_thresholds(30, 60, 90).validate(), Ok(()));
    assert_eq!(rules_with_thresholds(0, 1, 2).validate(), Ok(()));
    assert_eq!(
        rules_with_thresholds(30, 30, 90).validate(),
        Err(RulesError::ThresholdsUnordered)
    );
    assert_eq!(
        rules_with_thresholds(60, 30, 90).validate(),
        Err(RulesError::ThresholdsUnordered)
    );
    assert_eq!(
        rules_with_thresholds(30, 90, 60).validate(),
        Err(RulesError::ThresholdsUnordered)
    );
    assert_eq!(
        rules_with_thresholds(30, 90, 90).validate(),
        Err(RulesError::ThresholdsUnordered)
    );
}

#[test]
fn resolver_goes_by_the_highest_threshold_reached_first() {
    let odd = rules_with_thresholds(30, 50, 10);
    assert_eq!(odd.resolve_attack(20, 0, 0), HitKind::Crit);
    assert_eq!(odd.resolve_attack(5, 0, 0), HitKind::Miss);
}

#[test]
fn attack_roll_rolls_between_one_and_a_hundred() {
    let rules = rules_with_thresholds(30, 60, 90);
    for _ in 0..200 {
        assert_eq!(rules.attack_roll(1000, 0), HitKind::Crit);
        assert_eq!(rules.attack_roll(0, 1000), HitKind::Miss);
    }
    let exact = rules_with_thresholds(1, 2, 101);
    for _ in 0..500 {
        // With accuracy and defense at 0 the adjusted roll is the roll itself.
        let kind = exact.attack_roll(0, 0);
        assert!(kind == HitKind::Graze || kind == HitKind::Hit);
    }
}

#[test]
fn the_die_shows_every_number_from_one_to_a_hundred_only() {
    let mut seen = [false; 101];
    for _ in 0..20000 {
        let roll = roll_d100();
        assert!(roll >= 1 && roll <= 100);
        seen[roll as usize] = true;
    }
    assert!(seen[1]);
    assert!(seen[100]);
    assert_eq!(seen.iter().filter(|s| **s).count(), 100);
}

#[test]
fn damage_percent_goes_by_tier() {
    let rules = rules_with_thresholds(30, 60, 90);
    assert_eq!(rules.damage_percent(HitKind::Miss), 0);
    assert_eq!(rules.damage_percent(HitKind::Graze), 50);
    assert_eq!(rules.damage_percent(HitKind::Hit), 100);
    assert_eq!(rules.damage_percent(HitKind::Crit), 150);
}

#[test]
fn experience_for_the_next_level_comes_from_the_table() {
    let rules = rules_with_thresholds(30, 60, 90);
    assert_eq!(rules.get_xp_for_next_level(0), Some(0));
    assert_eq!(rules.get_xp_for_next_level(1), Some(100));
    assert_eq!(rules.get_xp_for_next_level(2), Some(300));
    assert_eq!(rules.get_xp_for_next_level(3), Some(600));
    assert_eq!(rules.get_xp_for_next_level(4), None);
    assert_eq!(rules.get_xp_for_next_level(u32::MAX), None);
}

#[test]
fn tiers_have_their_names() {
    assert_eq!(HitKind::Miss.name(), "Miss");
    assert_eq!(HitKind::Graze.name(), "Graze");
    assert_eq!(HitKind::Hit.name(), "Hit");
    assert_eq!(HitKind::Crit.name(), "Crit");
}
