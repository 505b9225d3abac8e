use sulis::ability::{Ability, Active};
use sulis::actor::{Actor, ActorState};
use sulis::area::{AreaState, EntityState};
use sulis::attribute::AttributeList;
use sulis::geometry::{Footprint, Point};
use sulis::module::{Module, ObjectSize};
use sulis::rules::Rules;
use sulis::script::{ScriptAbility, ScriptEntity, ScriptEntitySet, ScriptError};
use sulis::shape::Shape;
use sulis::simulation::{RequestError, Simulation};
use sulis::stats::BonusList;
use sulis::targeter::{Targeter, TargeterData, TargeterState};

fn rules_for_simulations() -> Rules {
    Rules {
        base_ap: 8,
        movement_ap: 2,
        attack_ap: 4,
        base_initiative: 0,
        graze_percentile: 30,
        hit_percentile: 60,
        crit_percentile: 90,
        graze_damage_percent: 50,
        hit_damage_percent: 100,
        crit_damage_percent: 150,
        dual_wield_damage_percent: 75,
        base_attribute: 10,
        builder_max_attribute: 18,
        builder_min_attribute: 3,
        builder_attribute_points: 10,
        experience_for_level: vec![100, 300, 600],
        loot_drop_prop: String::from("loot"),
    }
}

fn bolt() -> Ability {
    Ability {
        id: String::from("bolt"),
        name: String::from("Bolt"),
        active: Some(Active { script: String::from("-- bolt"), ap: 3, duration: 2000 }),
    }
}

fn aura() -> Ability {
    Ability { id: String::from("aura"), name: String::from("Aura"), active: None }
}

fn mage(x: i32, y: i32, ap: u32) -> EntityState {
    let actor = Actor {
        id: String::from("mage"),
        name: String::from("Mage"),
        attributes: AttributeList::new(10),
        race: BonusList::empty(),
        levels: Vec::new(),
        total_level: 1,
        abilities: vec![aura(), bolt()],
        xp: 0,
        items: Vec::new(),
        to_equip: Vec::new(),
        reward: None,
    };
    let mut state = ActorState::new(actor);
    state.ap = ap;
    EntityState { actor: state, location: Point::new(x, y), size: Footprint { width: 1, height: 1 } }
}

fn world() -> Simulation {
    let module = Module {
        rules: rules_for_simulations(),
        object_sizes: vec![ObjectSize {
            id: String::from("1by1"),
            footprint: Footprint { width: 1, height: 1 },
        }],
        props: vec![String::from("loot")],
    };
    let mut area = AreaState::new(8, 8, vec![true; 64]);
    area.add_entity(mage(0, 0, 5));
    area.add_entity(mage(4, 4, 2));
    area.add_entity(mage(5, 4, 5));
    Simulation::new(module, area)
}

fn bolt_setup() -> TargeterData {
    let mut data = TargeterData::new(0, "bolt");
    data.add_all_selectable(&ScriptEntitySet::new(0, vec![Some(1), Some(2)]));
    data.add_all_effectable(&ScriptEntitySet::new(0, vec![Some(0), Some(1), Some(2)]));
    data.set_shape_circle(1);
    data
}

#[test]
fn ability_of_cost_three_with_two_action_points_is_refused_and_nothing_changes() {
    let simulation = world();
    assert_eq!(simulation.activate_ability(1, &bolt()), Err(RequestError::CannotActivate));
    assert_eq!(simulation, world());
    let actor = &simulation.area.get_entity(1).unwrap().actor;
    assert!(!actor.can_activate("bolt"));
    assert_eq!(actor.ap(), 2);
    assert!(actor.get_ability_state("bolt").unwrap().is_available());
}

#[test]
fn an_activation_that_is_granted_hands_back_the_call_and_changes_nothing() {
    let simulation = world();
    let call = simulation.activate_ability(0, &bolt()).unwrap();
    assert_eq!(call.text, "-- bolt\non_activate(parent, ability, targets)");
    assert_eq!(call.function, "on_activate");
    assert_eq!(call.parent, ScriptEntity::from(0));
    assert_eq!(call.ability, ScriptAbility::from(&bolt()));
    assert_eq!(call.targets, ScriptEntitySet { parent: 0, indices: Vec::new(), point: None });
    assert_eq!(simulation, world());
}

#[test]
fn an_activation_is_refused_for_each_reason() {
    let mut simulation = world();
    assert_eq!(simulation.activate_ability(3, &bolt()), Err(RequestError::ParentGone));
    assert_eq!(simulation.activate_ability(0, &aura()), Err(RequestError::CannotActivate));
    simulation.area.turn_active = true;
    let seen = ScriptAbility::from(&bolt());
    simulation.area.ability_activate(&seen, ScriptEntity::from(0)).unwrap();
    assert_eq!(simulation.area.get_entity(0).unwrap().actor.ap(), 2);
    simulation.area.entities[0].as_mut().unwrap().actor.ap = 8;
    // on cooldown
    assert_eq!(simulation.activate_ability(0, &bolt()), Err(RequestError::CannotActivate));
    simulation.area.entities[0].as_mut().unwrap().actor.update(2000, &rules_for_simulations());
    assert!(simulation.activate_ability(0, &bolt()).is_ok());
    // an ability that is held under the id of an activatable one but is passive
    let mut hollow = bolt();
    hollow.active = None;
    assert_eq!(simulation.activate_ability(0, &hollow), Err(RequestError::AbilityNotActive));
    simulation.area.remove_entity(0);
    assert_eq!(simulation.activate_ability(0, &bolt()), Err(RequestError::ParentGone));
}

#[test]
fn a_commit_hands_back_the_call_with_targets_and_tile() {
    let mut simulation = world();
    simulation.set_targeter(bolt_setup()).unwrap();
    assert_eq!(simulation.targeter.as_ref().unwrap().state, TargeterState::Active);
    assert_eq!(simulation.on_mouse_move(4, 4), Some(1));
    assert_eq!(simulation.on_mouse_move(0, 0), None);
    assert_eq!(simulation.on_activate(), Err(RequestError::InvalidSelection));
    assert_eq!(simulation.targeter.as_ref().unwrap().state, TargeterState::Active);
    assert_eq!(simulation.on_mouse_move(5, 4), Some(2));
    let area_before = simulation.area.clone();
    let call = simulation.on_activate().unwrap();
    assert_eq!(call.text, "-- bolt\non_target_select(parent, ability, targets)");
    assert_eq!(call.function, "on_target_select");
    assert_eq!(call.parent, ScriptEntity::from(0));
    assert_eq!(call.ability, ScriptAbility::from(&bolt()));
    assert_eq!(
        call.targets,
        ScriptEntitySet { parent: 0, indices: vec![Some(1), Some(2)], point: Some((5, 4)) }
    );
    assert_eq!(simulation.targeter, None);
    assert_eq!(simulation.area, area_before);
    assert_eq!(simulation.on_activate(), Err(RequestError::NoTargeter));
    assert_eq!(simulation.on_mouse_move(5, 4), None);
}

#[test]
fn a_commit_is_refused_for_each_reason_and_changes_nothing() {
    let mut simulation = world();
    assert_eq!(simulation.on_activate(), Err(RequestError::NoTargeter));
    let mut orphan = bolt_setup();
    orphan.parent = 7;
    simulation.set_targeter(orphan).unwrap();
    simulation.on_mouse_move(5, 4);
    let before = simulation.clone();
    assert_eq!(simulation.on_activate(), Err(RequestError::ParentGone));
    assert_eq!(simulation, before);
    let mut unknown = bolt_setup();
    unknown.ability_id = String::from("storm");
    simulation.set_targeter(unknown).unwrap();
    simulation.on_mouse_move(5, 4);
    let before = simulation.clone();
    assert_eq!(simulation.on_activate(), Err(RequestError::UnknownAbility));
    assert_eq!(simulation, before);
    let mut passive = bolt_setup();
    passive.ability_id = String::from("aura");
    simulation.set_targeter(passive).unwrap();
    simulation.on_mouse_move(5, 4);
    let before = simulation.clone();
    assert_eq!(simulation.on_activate(), Err(RequestError::AbilityNotActive));
    assert_eq!(simulation, before);
    simulation.set_targeter(bolt_setup()).unwrap();
    let before = simulation.clone();
    assert_eq!(simulation.on_activate(), Err(RequestError::InvalidSelection));
    assert_eq!(simulation, before);
    simulation.targeter = Some(Targeter::from(bolt_setup(), &Vec::new()).unwrap());
    simulation.targeter.as_mut().unwrap().cursor = Some(Point::new(5, 4));
    let before = simulation.clone();
    assert_eq!(simulation.on_activate(), Err(RequestError::InvalidSelection));
    assert_eq!(simulation.on_mouse_move(4, 4), None);
    assert_eq!(simulation, before);
}

#[test]
fn a_setup_that_names_an_unknown_object_size_is_not_installed() {
    let mut simulation = world();
    let mut odd = bolt_setup();
    odd.shape = Shape::ObjectSize { size: String::from("9by9") };
    assert_eq!(simulation.set_targeter(odd.clone()), Err(ScriptError::UnknownObjectSize));
    assert_eq!(simulation, world());
    simulation.set_targeter(bolt_setup()).unwrap();
    let before = simulation.clone();
    assert_eq!(simulation.set_targeter(odd), Err(ScriptError::UnknownObjectSize));
    assert_eq!(simulation, before);
    let mut fine = bolt_setup();
    fine.shape = Shape::ObjectSize { size: String::from("1by1") };
    assert_eq!(simulation.set_targeter(fine.clone()), Ok(()));
    assert_eq!(simulation.targeter.as_ref().unwrap().data, fine);
}

#[test]
fn cancelling_before_the_commit_leaves_sets_and_entities_as_they_were() {
    let mut simulation = world();
    simulation.set_targeter(bolt_setup()).unwrap();
    simulation.on_mouse_move(5, 4);
    let cancelled = simulation.on_cancel(false).unwrap();
    assert_eq!(cancelled.state, TargeterState::Cancelled);
    assert_eq!(cancelled.data, bolt_setup());
    assert_eq!(cancelled.data.selectable, vec![Some(1), Some(2)]);
    assert_eq!(cancelled.data.effectable, vec![Some(0), Some(1), Some(2)]);
    assert_eq!(simulation, world());
    assert_eq!(simulation.on_cancel(false), None);
    assert_eq!(simulation.on_cancel(true), None);
    assert_eq!(simulation, world());
}

#[test]
fn a_targeter_that_must_not_be_cancelled_yields_only_to_force() {
    let mut simulation = world();
    simulation.set_targeter(bolt_setup()).unwrap();
    simulation.targeter.as_mut().unwrap().free_cancel = false;
    let before = simulation.clone();
    assert_eq!(simulation.on_cancel(false), None);
    assert_eq!(simulation, before);
    let cancelled = simulation.on_cancel(true).unwrap();
    assert_eq!(cancelled.state, TargeterState::Cancelled);
    assert!(!cancelled.free_cancel);
    assert_eq!(simulation, world());
    simulation.targeter = Some(Targeter::from(bolt_setup(), &Vec::new()).unwrap());
    let before = simulation.clone();
    assert_eq!(simulation.on_cancel(true), None);
    assert_eq!(simulation, before);
}
