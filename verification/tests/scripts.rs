use sulis::ability::{Ability, Active};
use sulis::actor::{Actor, ActorState};
use sulis::area::{AreaState, EntityState};
use sulis::attribute::AttributeList;
use sulis::geometry::{Footprint, Point};
use sulis::script::{
    args_string, get_script, script_text, CallbackData, ScriptAbility, ScriptCall, ScriptEntity,
    ScriptEntitySet, ScriptError, ScriptState,
};
use sulis::stats::BonusList;

fn heal() -> Ability {
    Ability {
        id: String::from("heal"),
        name: String::from("Heal"),
        active: Some(Active {
            script: String::from("function on_activate(parent, ability, targets)\nend"),
            ap: 3,
            duration: 6000,
        }),
    }
}

fn thick_skin() -> Ability {
    Ability { id: String::from("thick_skin"), name: String::from("Thick Skin"), active: None }
}

fn healer(x: i32, y: i32) -> EntityState {
    let actor = Actor {
        id: String::from("healer"),
        name: String::from("Healer"),
        attributes: AttributeList::new(10),
        race: BonusList::empty(),
        levels: Vec::new(),
        total_level: 1,
        abilities: vec![heal(), thick_skin()],
        xp: 0,
        items: Vec::new(),
        to_equip: Vec::new(),
        reward: None,
    };
    let mut state = ActorState::new(actor);
    state.ap = 5;
    EntityState { actor: state, location: Point::new(x, y), size: Footprint { width: 2, height: 1 } }
}

#[test]
fn the_arguments_of_an_entry_point_are_spelled_out() {
    assert_eq!(args_string(None), "(parent, ability, targets)");
    assert_eq!(args_string(Some("hit")), "(parent, ability, targets, hit)");
    assert_eq!(args_string(Some("")), "(parent, ability, targets, )");
}

#[test]
fn the_text_to_run_is_the_script_followed_by_the_call() {
    assert_eq!(script_text("x = 1", "on_activate", "(a, b)"), "x = 1\non_activate(a, b)");
    assert_eq!(script_text("", "", ""), "\n");
}

#[test]
fn a_passive_ability_has_no_script() {
    assert_eq!(get_script(&heal()), Ok("function on_activate(parent, ability, targets)\nend"));
    assert_eq!(get_script(&thick_skin()), Err(ScriptError::AbilityNotActive));
    assert_eq!(ScriptAbility::try_from(&thick_skin()), Err(ScriptError::AbilityNotActive));
    let state = ScriptState::new();
    assert_eq!(state.ability_on_activate(0, &thick_skin()), Err(ScriptError::AbilityNotActive));
    assert_eq!(
        state.ability_on_target_select(0, &thick_skin(), vec![Some(1)], Point::new(1, 1)),
        Err(ScriptError::AbilityNotActive)
    );
    assert_eq!(
        state.ability_script(0, &thick_skin(), ScriptEntitySet::new(0, Vec::new()), None, "f"),
        Err(ScriptError::AbilityNotActive)
    );
}

#[test]
fn a_script_sees_id_name_duration_and_cost_of_an_ability() {
    let seen = ScriptAbility::from(&heal());
    assert_eq!(
        seen,
        ScriptAbility { id: String::from("heal"), name: String::from("Heal"), duration: 6000, ap: 3 }
    );
    assert_eq!(ScriptAbility::try_from(&heal()), Ok(seen.clone()));
    assert_eq!(seen.name(), "Heal");
    assert_eq!(seen.duration(), 6000);
}

#[test]
fn a_callback_names_entity_and_ability() {
    let seen = ScriptAbility::from(&heal());
    assert_eq!(
        seen.create_callback(ScriptEntity::from(4)),
        Ok(CallbackData { parent: 4, ability_id: String::from("heal") })
    );
    assert_eq!(
        seen.create_callback(ScriptEntity { index: None }),
        Err(ScriptError::EntityMissing)
    );
}

#[test]
fn activation_calls_the_entry_point_for_activation_without_targets() {
    let call = ScriptState::new().ability_on_activate(2, &heal()).unwrap();
    assert_eq!(
        call,
        ScriptCall {
            text: String::from(
                "function on_activate(parent, ability, targets)\nend\non_activate(parent, ability, targets)"
            ),
            function: String::from("on_activate"),
            parent: ScriptEntity { index: Some(2) },
            ability: ScriptAbility::from(&heal()),
            targets: ScriptEntitySet { parent: 2, indices: Vec::new(), point: None },
            arg: None,
        }
    );
}

#[test]
fn a_commit_calls_the_entry_point_for_selected_targets() {
    let call = ScriptState::new()
        .ability_on_target_select(2, &heal(), vec![Some(5), None, Some(1)], Point::new(-3, 8))
        .unwrap();
    assert_eq!(
        call.text,
        "function on_activate(parent, ability, targets)\nend\non_target_select(parent, ability, targets)"
    );
    assert_eq!(call.function, "on_target_select");
    assert_eq!(call.parent, ScriptEntity::from(2));
    assert_eq!(
        call.targets,
        ScriptEntitySet { parent: 2, indices: vec![Some(5), None, Some(1)], point: Some((-3, 8)) }
    );
    assert_eq!(call.arg, None);
}

#[test]
fn a_further_argument_is_named_in_the_call() {
    let targets = ScriptEntitySet::new(1, vec![Some(1)]);
    let call = ScriptState::new()
        .ability_script(1, &heal(), targets.clone(), Some("hit_kind"), "after_attack")
        .unwrap();
    assert_eq!(
        call.text,
        "function on_activate(parent, ability, targets)\nend\nafter_attack(parent, ability, targets, hit_kind)"
    );
    assert_eq!(call.function, "after_attack");
    assert_eq!(call.arg, Some(String::from("hit_kind")));
    assert_eq!(call.targets, targets);
    assert_eq!(call.ability.ap, 3);
}

#[test]
fn activating_spends_action_points_only_during_a_turn() {
    let seen = ScriptAbility::from(&heal());
    let mut area = AreaState::new(4, 4, vec![true; 16]);
    let first = area.add_entity(healer(0, 0));
    let second = area.add_entity(healer(2, 2));
    assert_eq!(area.ability_activate(&seen, ScriptEntity::from(first)), Ok(()));
    assert_eq!(area.get_entity(first).unwrap().actor.ap(), 5);
    assert_eq!(
        area.get_entity(first).unwrap().actor.get_ability_state("heal").unwrap().remaining_duration,
        6000
    );
    assert_eq!(*area.get_entity(second).unwrap(), healer(2, 2));
    area.turn_active = true;
    assert_eq!(area.ability_activate(&seen, ScriptEntity::from(second)), Ok(()));
    assert_eq!(area.get_entity(second).unwrap().actor.ap(), 2);
    assert!(!area.get_entity(second).unwrap().actor.can_activate("heal"));
    assert_eq!(area.get_entity(second).unwrap().location, Point::new(2, 2));
    assert_eq!(area.ability_activate(&seen, ScriptEntity::from(second)), Ok(()));
    assert_eq!(area.get_entity(second).unwrap().actor.ap(), 0);
    assert_eq!(area.get_entity(first).unwrap().actor.ap(), 5);
}

#[test]
fn activating_on_an_entity_that_left_does_nothing() {
    let seen = ScriptAbility::from(&heal());
    let mut area = AreaState::new(4, 4, vec![true; 16]);
    let first = area.add_entity(healer(0, 0));
    let second = area.add_entity(healer(2, 2));
    area.remove_entity(second);
    area.turn_active = true;
    let before = area.clone();
    assert_eq!(area.ability_activate(&seen, ScriptEntity::from(second)), Ok(()));
    assert_eq!(area.ability_activate(&seen, ScriptEntity::from(9)), Ok(()));
    assert_eq!(
        area.ability_activate(&seen, ScriptEntity { index: None }),
        Err(ScriptError::EntityMissing)
    );
    assert_eq!(area, before);
    let unknown = ScriptAbility {
        id: String::from("unknown"),
        name: String::from("Unknown"),
        duration: 1,
        ap: 1,
    };
    assert_eq!(area.ability_activate(&unknown, ScriptEntity::from(first)), Ok(()));
    assert_eq!(area.get_entity(first).unwrap().actor.ap(), 4);
    assert_eq!(
        area.get_entity(first).unwrap().actor.ability_states,
        before.get_entity(first).unwrap().actor.ability_states
    );
}

#[test]
fn a_script_asks_whether_an_entity_could_stand_somewhere() {
    let mut passable = vec![true; 16];
    passable[1 * 4 + 2] = false;
    let mut area = AreaState::new(4, 4, passable);
    let wide = area.add_entity(healer(0, 0));
    assert_eq!(area.script_is_passable(ScriptEntity::from(wide), 0, 0), Ok(true));
    assert_eq!(area.script_is_passable(ScriptEntity::from(wide), 2, 3), Ok(true));
    assert_eq!(area.script_is_passable(ScriptEntity::from(wide), 3, 3), Ok(false));
    assert_eq!(area.script_is_passable(ScriptEntity::from(wide), 1, 1), Ok(false));
    assert_eq!(area.script_is_passable(ScriptEntity::from(wide), 2, 1), Ok(false));
    assert_eq!(area.script_is_passable(ScriptEntity::from(wide), 0, 1), Ok(true));
    assert_eq!(area.script_is_passable(ScriptEntity::from(7), 0, 0), Ok(false));
    assert_eq!(
        area.script_is_passable(ScriptEntity { index: None }, 0, 0),
        Err(ScriptError::EntityMissing)
    );
}
