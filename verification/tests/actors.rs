use sulis::ability::{Ability, Active};
use sulis::actor::{Actor, ActorState};
use sulis::attribute::{Attribute, AttributeList};
use sulis::effect::Effect;
use sulis::geometry::Point;
use sulis::inventory::{Equippable, Item, Slot};
use sulis::prop::PropState;
use sulis::rules::Rules;
use sulis::stats::{Attack, BonusList, ClassLevels};

fn rules_for_actors() -> Rules {
    Rules {
        base_ap: 8,
        movement_ap: 2,
        attack_ap: 4,
        base_initiative: 5,
        graze_percentile: 30,
        hit_percentile: 60,
        crit_percentile: 90,
        graze_damage_percent: 50,
        hit_damage_percent: 100,
        crit_damage_percent: 150,
        dual_wield_damage_percent: 75,
        base_attribute: 10,
        builder_max_attribute: 18,
        builder_min_attribute: 3,
        builder_attribute_points: 10,
        experience_for_level: vec![100, 300, 600],
        loot_drop_prop: String::from("loot"),
    }
}

fn plain(hit_points: i32, accuracy: i32, defense: i32) -> BonusList {
    BonusList { hit_points, initiative: 0, accuracy, defense, armor: 0, attack: None }
}

fn active_ability(id: &str, ap: u32, duration: u32) -> Ability {
    Ability {
        id: String::from(id),
        name: String::from(id).to_uppercase(),
        active: Some(Active { script: String::from("-- script"), ap, duration }),
    }
}

fn passive_ability(id: &str) -> Ability {
    Ability { id: String::from(id), name: String::from(id), active: None }
}

fn armor_piece(id: &str, slot: Slot, defense: i32) -> Item {
    Item {
        id: String::from(id),
        equippable: Some(Equippable { slot, bonuses: plain(0, 0, defense) }),
    }
}

fn sword_item() -> Item {
    Item {
        id: String::from("sword"),
        equippable: Some(Equippable {
            slot: Slot::HeldMain,
            bonuses: BonusList {
                hit_points: 0,
                initiative: 0,
                accuracy: 2,
                defense: 0,
                armor: 0,
                attack: Some(Attack { min_damage: 3, max_damage: 9 }),
            },
        }),
    }
}

fn junk(id: &str) -> Item {
    Item { id: String::from(id), equippable: None }
}

fn fighter() -> Actor {
    let mut attributes = AttributeList::new(10);
    attributes.set(Attribute::Endurance, 13);
    Actor {
        id: String::from("fighter"),
        name: String::from("Fighter"),
        attributes,
        race: BonusList {
            hit_points: 20,
            initiative: 0,
            accuracy: 1,
            defense: 1,
            armor: 0,
            attack: Some(Attack { min_damage: 1, max_damage: 2 }),
        },
        levels: vec![ClassLevels { bonuses_per_level: plain(5, 1, 1), level: 2 }],
        total_level: 2,
        abilities: vec![
            active_ability("strike", 3, 4000),
            passive_ability("toughness"),
            active_ability("shout", 1, 1000),
            active_ability("strike", 9, 9),
        ],
        xp: 150,
        items: vec![armor_piece("helmet", Slot::Head, 2), junk("gem"), sword_item()],
        to_equip: vec![0, 1, 2, 7],
        reward: None,
    }
}

#[test]
fn a_new_actor_state_starts_from_the_authored_actor() {
    let state = ActorState::new(fighter());
    assert_eq!(state.actor, fighter());
    assert_eq!(state.hp(), 0);
    assert_eq!(state.ap(), 0);
    assert_eq!(state.xp(), 150);
    assert!(!state.has_level_up());
    assert!(state.is_dead());
    assert!(state.effects_iter().is_empty());
    assert_eq!(state.stats.max_hp, 0);
    assert!(state.stats.attacks.is_empty());
    assert_eq!(state.stats.attributes, fighter().attributes);
    assert_eq!(state.inventory().items, fighter().items);
    assert_eq!(state.inventory().equipped.get(Slot::Head), Some(0));
    assert_eq!(state.inventory().equipped.get(Slot::HeldMain), Some(2));
    assert_eq!(state.inventory().equipped.get(Slot::Torso), None);
    let ids: Vec<&str> = state.ability_states.iter().map(|s| s.ability_id.as_str()).collect();
    assert_eq!(ids, vec!["strike", "shout"]);
    assert_eq!(state.ability_states[0].activate_ap, 3);
    assert_eq!(state.ability_states[0].duration, 4000);
    assert!(state.ability_states.iter().all(|s| s.remaining_duration == 0));
}

#[test]
fn stats_are_computed_from_actor_items_and_effects() {
    let rules = rules_for_actors();
    let mut state = ActorState::new(fighter());
    state.compute_stats(&rules);
    // endurance 3, race 20, two levels of 5
    assert_eq!(state.stats.max_hp, 33);
    // race 1, two levels of 1, sword 2
    assert_eq!(state.stats.accuracy, 5);
    // race 1, two levels of 1, helmet 2
    assert_eq!(state.stats.defense, 5);
    assert_eq!(state.stats.initiative, 5);
    assert_eq!(state.stats.attacks, vec![Attack { min_damage: 3, max_damage: 9 }]);
    assert_eq!(state.stats.damage_percent, 100);
    // level 2 needs 300, the actor has 150
    assert!(!state.has_level_up());
    assert_eq!(state.hp(), 0);
    let once = ActorState::new(fighter());
    let mut again = once;
    again.compute_stats(&rules);
    assert_eq!(again, state);
    again.compute_stats(&rules);
    assert_eq!(again, state);
}

#[test]
fn ability_with_cost_three_cannot_be_activated_with_two_action_points() {
    let mut state = ActorState::new(fighter());
    state.ap = 2;
    let before = ActorState { ap: 2, ..ActorState::new(fighter()) };
    assert!(!state.can_activate("strike"));
    assert_eq!(state, before);
    assert_eq!(state.ap(), 2);
    assert!(state.get_ability_state("strike").unwrap().is_available());
    state.ap = 3;
    assert!(state.can_activate("strike"));
}

#[test]
fn an_ability_can_be_activated_only_off_cooldown_and_where_known() {
    let mut state = ActorState::new(fighter());
    state.ap = 8;
    assert!(state.can_activate("strike"));
    assert!(state.can_activate("shout"));
    assert!(!state.can_activate("toughness"));
    assert!(!state.can_activate("unknown"));
    assert!(!state.can_activate(""));
    state.activate_ability_state("strike");
    assert!(!state.can_activate("strike"));
    assert!(state.can_activate("shout"));
    assert_eq!(state.get_ability_state("strike").unwrap().remaining_duration, 4000);
    assert_eq!(state.get_ability_state("toughness"), None);
    assert_eq!(state.ap(), 8);
    let before = state.ability_states.clone();
    state.activate_ability_state("unknown");
    assert_eq!(state.ability_states, before);
}

#[test]
fn update_ages_cooldowns_and_effects() {
    let rules = rules_for_actors();
    let mut state = ActorState::new(fighter());
    state.compute_stats(&rules);
    state.activate_ability_state("strike");
    state.activate_ability_state("shout");
    state.add_effect(Effect::new(plain(10, 0, 0), 500), &rules);
    state.add_effect(Effect::new(plain(0, 7, 0), 2000), &rules);
    assert_eq!(state.stats.max_hp, 43);
    assert_eq!(state.stats.accuracy, 12);
    assert!(!state.update(499, &rules));
    assert_eq!(state.effects_iter().len(), 2);
    assert_eq!(state.effects_iter()[0].remaining_millis, 1);
    assert_eq!(state.stats.max_hp, 43);
    assert_eq!(state.get_ability_state("strike").unwrap().remaining_duration, 3501);
    assert_eq!(state.get_ability_state("shout").unwrap().remaining_duration, 501);
    assert!(state.update(501, &rules));
    assert_eq!(state.effects_iter().len(), 1);
    assert_eq!(state.effects_iter()[0].bonuses, plain(0, 7, 0));
    assert_eq!(state.effects_iter()[0].remaining_millis, 1000);
    assert_eq!(state.stats.max_hp, 33);
    assert_eq!(state.stats.accuracy, 12);
    assert!(state.get_ability_state("shout").unwrap().is_available());
    assert_eq!(state.get_ability_state("strike").unwrap().remaining_duration, 3000);
    assert!(state.update(5000, &rules));
    assert!(state.effects_iter().is_empty());
    assert_eq!(state.stats.accuracy, 5);
    assert!(!state.update(5000, &rules));
}

#[test]
fn equipping_changes_the_stats() {
    let rules = rules_for_actors();
    let mut state = ActorState::new(fighter());
    state.compute_stats(&rules);
    assert!(state.unequip(Slot::HeldMain, &rules));
    assert_eq!(state.stats.accuracy, 3);
    assert_eq!(state.stats.attacks, vec![Attack { min_damage: 1, max_damage: 2 }]);
    assert!(!state.unequip(Slot::HeldMain, &rules));
    assert!(state.equip(2, &rules));
    assert_eq!(state.stats.accuracy, 5);
    assert!(!state.equip(1, &rules));
    assert!(!state.equip(3, &rules));
    assert_eq!(state.stats.accuracy, 5);
    assert_eq!(state.inventory().items.len(), 3);
}

#[test]
fn hit_points_and_action_points_never_fall_below_none() {
    let rules = rules_for_actors();
    let mut state = ActorState::new(fighter());
    state.compute_stats(&rules);
    state.init();
    assert_eq!(state.hp(), 33);
    assert!(!state.is_dead());
    state.remove_hp(30);
    assert_eq!(state.hp(), 3);
    state.remove_hp(3);
    assert_eq!(state.hp(), 0);
    assert!(state.is_dead());
    state.init();
    state.remove_hp(34);
    assert_eq!(state.hp(), 0);
    state.init();
    state.remove_hp(u32::MAX);
    assert_eq!(state.hp(), 0);
    state.hp = -5;
    state.remove_hp(0);
    assert_eq!(state.hp(), 0);
    assert!(state.init_turn(&rules));
    assert_eq!(state.ap(), 8);
    assert!(!state.init_turn(&rules));
    state.remove_ap(3);
    assert_eq!(state.ap(), 5);
    state.remove_ap(6);
    assert_eq!(state.ap(), 0);
    assert!(!state.end_turn());
    state.init_turn(&rules);
    assert!(state.end_turn());
    assert_eq!(state.ap(), 0);
}

#[test]
fn experience_adds_up_and_flags_the_level_up() {
    let rules = rules_for_actors();
    let mut state = ActorState::new(fighter());
    state.add_xp(149, &rules);
    assert_eq!(state.xp(), 299);
    assert!(!state.has_level_up());
    assert_eq!(state.stats.max_hp, 33);
    state.add_xp(1, &rules);
    assert_eq!(state.xp(), 300);
    assert!(state.has_level_up());
    state.add_xp(u32::MAX, &rules);
    assert_eq!(state.xp(), u32::MAX);
    let mut top = fighter();
    top.total_level = 4;
    let mut state = ActorState::new(top);
    state.add_xp(u32::MAX, &rules);
    assert!(!state.has_level_up());
}

#[test]
fn a_level_up_keeps_the_cooldowns_that_are_running() {
    let rules = rules_for_actors();
    let mut state = ActorState::new(fighter());
    state.compute_stats(&rules);
    state.init();
    state.ap = 6;
    state.activate_ability_state("strike");
    state.update(1000, &rules);
    state.remove_hp(20);
    let mut next = fighter();
    next.levels = vec![ClassLevels { bonuses_per_level: plain(5, 1, 1), level: 3 }];
    next.total_level = 3;
    next.abilities.push(active_ability("whirl", 5, 8000));
    state.level_up(next, &rules);
    assert_eq!(state.actor.total_level, 3);
    assert_eq!(state.stats.max_hp, 38);
    assert_eq!(state.hp(), 38);
    assert_eq!(state.ap(), 6);
    assert_eq!(state.xp(), 150);
    let ids: Vec<&str> = state.ability_states.iter().map(|s| s.ability_id.as_str()).collect();
    assert_eq!(ids, vec!["strike", "shout", "whirl"]);
    assert_eq!(state.get_ability_state("strike").unwrap().remaining_duration, 3000);
    assert!(state.get_ability_state("whirl").unwrap().is_available());
    assert_eq!(state.get_ability_state("whirl").unwrap().activate_ap, 5);
}

#[test]
fn taking_moves_items_from_a_prop_into_the_inventory() {
    let mut state = ActorState::new(fighter());
    let mut chest = PropState {
        prop_id: String::from("chest"),
        location: Point::new(3, 4),
        items: vec![junk("a"), junk("b"), junk("c"), junk("d")],
    };
    assert!(!state.take(&mut chest, 4));
    assert_eq!(chest.num_items(), 4);
    assert_eq!(state.inventory().items.len(), 3);
    assert!(state.take(&mut chest, 1));
    assert_eq!(chest.items, vec![junk("a"), junk("c"), junk("d")]);
    assert_eq!(state.inventory().items[3], junk("b"));
    assert!(state.take_all(&mut chest));
    assert!(chest.items.is_empty());
    assert_eq!(chest.prop_id, "chest");
    assert_eq!(chest.location, Point::new(3, 4));
    let ids: Vec<&str> = state.inventory().items.iter().map(|i| i.id.as_str()).collect();
    assert_eq!(ids, vec!["helmet", "gem", "sword", "b", "d", "c", "a"]);
    assert_eq!(state.inventory().equipped.get(Slot::Head), Some(0));
    assert!(!state.take_all(&mut chest));
    assert_eq!(state.inventory().items.len(), 7);
    assert_eq!(chest.remove_item(0), None);
}

#[test]
fn moving_and_attacking_cost_action_points() {
    let rules = rules_for_actors();
    let mut state = ActorState::new(fighter());
    assert_eq!(state.get_move_ap_cost(&rules, 0), 0);
    assert_eq!(state.get_move_ap_cost(&rules, 7), 14);
    assert_eq!(state.get_move_ap_cost(&rules, u32::MAX / 2), u32::MAX - 1);
    state.ap = 3;
    assert!(!state.can_attack(&rules, true));
    state.ap = 4;
    assert!(state.can_attack(&rules, true));
    assert!(!state.can_attack(&rules, false));
}

#[test]
fn a_state_can_be_changed_in_place() {
    let mut state = ActorState::new(fighter());
    state.ap = 8;
    state.ability_state("shout").unwrap().activate();
    assert!(!state.can_activate("shout"));
    assert!(state.can_activate("strike"));
    state.ability_state("shout").unwrap().remaining_duration = 1;
    assert_eq!(state.get_ability_state("shout").unwrap().remaining_duration, 1);
    assert_eq!(state.get_ability_state("strike").unwrap().remaining_duration, 0);
    assert!(state.ability_state("toughness").is_none());
    assert!(state.ability_state("unknown").is_none());
    assert_eq!(state.ap(), 8);
}

#[test]
fn abilities_are_found_by_id() {
    let state = ActorState::new(fighter());
    assert_eq!(state.find_ability("shout"), Some(&active_ability("shout", 1, 1000)));
    assert_eq!(state.find_ability("strike"), Some(&active_ability("strike", 3, 4000)));
    assert_eq!(state.find_ability("toughness"), Some(&passive_ability("toughness")));
    assert_eq!(state.find_ability("whirl"), None);
}
