//! What scripts see of the simulation, and the preparation of script calls.
//!
//! A script never holds a reference into the simulation. It names entities
//! by handle, and each of its calls into the simulation is one function of
//! this library, which checks the handle before it touches anything. The
//! interpreter itself stands outside: the library says which text is to be
//! run with which values bound, and the caller runs it.

use vstd::prelude::*;
use vstd::string::StringExecFns;
use crate::ability::Ability;
use crate::area::AreaState;
use crate::geometry::Point;
use crate::actor::{ap_after, find_state, ActorState};

verus! {

/// Why a call between script and simulation is refused.
#[derive(Debug, Copy, Clone, PartialEq, Eq, Structural)]
pub enum ScriptError {
    /// The ability has no active part, and so no script.
    AbilityNotActive,
    /// The script handed over an entity that refers to nothing.
    EntityMissing,
    /// No object size of the given name exists.
    UnknownObjectSize,
}

/// An entity as a script holds it: a handle, or nothing.
#[derive(Debug, Copy, Clone, PartialEq, Eq, Structural)]
pub struct ScriptEntity {
    pub index: Option<usize>,
}

impl ScriptEntity {
    /// The script's view of the entity with the handle `index`.
    pub fn from(index: usize) -> (entity: ScriptEntity)
        ensures
            entity.index == Some(index),
    {
        ScriptEntity { index: Some(index) }
    }

    /// The handle, or an error where the entity refers to nothing.
    pub fn try_unwrap_index(&self) -> (index: Result<usize, ScriptError>)
        ensures
            match self.index {
                Some(handle) => index == Ok::<usize, ScriptError>(handle),
                None => index == Err::<usize, ScriptError>(ScriptError::EntityMissing),
            },
    {
        match self.index {
            Some(handle) => Ok(handle),
            None => Err(ScriptError::EntityMissing),
        }
    }
}

/// A set of targets as a script holds it: the acting entity, a sequence of
/// handles in which an entry without handle stands for a place of the shape
/// where no entity is, and possibly a selected tile.
#[derive(Debug, Clone, PartialEq, Eq)]
pub struct ScriptEntitySet {
    pub parent: usize,
    pub indices: Vec<Option<usize>>,
    pub point: Option<(i32, i32)>,
}

impl ScriptEntitySet {
    /// The set of the given targets of `parent`, without a selected tile.
    pub fn new(parent: usize, indices: Vec<Option<usize>>) -> (set: ScriptEntitySet)
        ensures
            set.parent == parent,
            set.indices == indices,
            set.point is None,
    {
        ScriptEntitySet { parent, indices, point: None }
    }
}

/// What a script sees of an activatable ability.
#[derive(Debug, PartialEq, Eq)]
pub struct ScriptAbility {
    pub id: String,
    pub name: String,
    pub duration: u32,
    pub ap: u32,
}

impl Clone for ScriptAbility {
    fn clone(&self) -> (copy: Self)
        ensures
            copy == *self,
    {
        ScriptAbility {
            id: self.id.clone(),
            name: self.name.clone(),
            duration: self.duration,
            ap: self.ap,
        }
    }
}

/// A token that a script keeps in order to be called again later: it names
/// an entity and an ability.
#[derive(Debug, Clone, PartialEq, Eq)]
pub struct CallbackData {
    pub parent: usize,
    pub ability_id: String,
}

impl ScriptAbility {
    /// What a script sees of `ability`, which has to be activatable.
    pub fn from(ability: &Ability) -> (seen: ScriptAbility)
        requires
            ability.active is Some,
        ensures
            seen.id == ability.id,
            seen.name == ability.name,
            seen.duration == ability.active->0.duration,
            seen.ap == ability.active->0.ap,
    {
        match &ability.active {
            Some(active) => ScriptAbility {
                id: ability.id.clone(),
                name: ability.name.clone(),
                duration: active.duration,
                ap: active.ap,
            },
            None => ScriptAbility {
                id: ability.id.clone(),
                name: ability.name.clone(),
                duration: 0,
                ap: 0,
            },
        }
    }

    /// What a script sees of `ability`, or an error where the ability is
    /// passive.
    pub fn try_from(ability: &Ability) -> (seen: Result<ScriptAbility, ScriptError>)
        ensures
            ability.active is None ==> seen == Err::<ScriptAbility, ScriptError>(
                ScriptError::AbilityNotActive,
            ),
            ability.active is Some ==> seen is Ok && {
                &&& seen->Ok_0.id == ability.id
                &&& seen->Ok_0.name == ability.name
                &&& seen->Ok_0.duration == ability.active->0.duration
                &&& seen->Ok_0.ap == ability.active->0.ap
            },
    {
        if ability.active.is_some() {
            Ok(ScriptAbility::from(ability))
        } else {
            Err(ScriptError::AbilityNotActive)
        }
    }

    /// The name of the ability.
    pub fn name(&self) -> (name: String)
        ensures
            name == self.name,
    {
        self.name.clone()
    }

    /// The time for which the ability stays on cooldown, in milliseconds.
    pub fn duration(&self) -> (duration: u32)
        ensures
            duration == self.duration,
    {
        self.duration
    }

    /// A token for calling back into the script of this ability on behalf
    /// of `parent`. An entity that refers to nothing gets none.
    pub fn create_callback(&self, parent: ScriptEntity) -> (token: Result<
        CallbackData,
        ScriptError,
    >)
        ensures
            match parent.index {
                Some(handle) => token is Ok && token->Ok_0.parent == handle
                    && token->Ok_0.ability_id == self.id,
                None => token is Err && token->Err_0 == ScriptError::EntityMissing,
            },
    {
        match parent.try_unwrap_index() {
            Ok(handle) => Ok(CallbackData { parent: handle, ability_id: self.id.clone() }),
            Err(error) => Err(error),
        }
    }
}

/// The script of an ability, or an error where the ability is passive.
pub fn get_script(ability: &Ability) -> (script: Result<&str, ScriptError>)
    ensures
        match ability.active {
            Some(active) => script is Ok && script->Ok_0@ == active.script@,
            None => script is Err && script->Err_0 == ScriptError::AbilityNotActive,
        },
{
    match &ability.active {
        None => Err(ScriptError::AbilityNotActive),
        Some(active) => Ok(active.script.as_str()),
    }
}

/// The arguments with which an entry point is called, as script text: the
/// three standard arguments and, where there is one, the further argument
/// `arg`.
pub open spec fn spec_args_string(arg: Option<Seq<char>>) -> Seq<char> {
    match arg {
        Some(name) => "(parent, ability, targets"@ + ", "@ + name + ")"@,
        None => "(parent, ability, targets"@ + ")"@,
    }
}

/// The text that is run for a call of `function`: the script, a line break,
/// and the call itself.
pub open spec fn spec_script_text(
    script: Seq<char>,
    function: Seq<char>,
    args: Seq<char>,
) -> Seq<char> {
    script + "\n"@ + function + args
}

/// The arguments with which an entry point is called, as script text.
pub fn args_string(arg: Option<&str>) -> (text: String)
    ensures
        text@ == spec_args_string(
            match arg {
                Some(name) => Some(name@),
                None => None,
            },
        ),
{
    let mut text = String::from_str("(parent, ability, targets");
    match arg {
        Some(name) => {
            text.append(", ");
            text.append(name);
        },
        None => {},
    }
    text.append(")");
    text
}

/// The text that is run for a call of `function`.
pub fn script_text(script: &str, function: &str, args: &str) -> (text: String)
    ensures
        text@ == spec_script_text(script@, function@, args@),
{
    let mut text = String::from_str(script);
    text.append("\n");
    text.append(function);
    text.append(args);
    text
}

/// The entry point that is called when an ability is activated.
pub open spec fn on_activate_name() -> Seq<char> {
    "on_activate"@
}

/// The entry point that is called when a targeter has committed.
pub open spec fn on_target_select_name() -> Seq<char> {
    "on_target_select"@
}

/// A call into a script, ready to be run: the text, the name of the entry
/// point, and the values that are bound before the text is run, which are
/// the acting entity, the ability, the targets and, where there is one, the
/// name of a further argument.
#[derive(Debug, Clone, PartialEq, Eq)]
pub struct ScriptCall {
    pub text: String,
    pub function: String,
    pub parent: ScriptEntity,
    pub ability: ScriptAbility,
    pub targets: ScriptEntitySet,
    pub arg: Option<String>,
}

/// Whether `call` is the call of the entry point `function` of the script
/// of `ability` on behalf of `parent`, with the given targets and further
/// argument.
pub open spec fn is_call_of(
    call: ScriptCall,
    parent: usize,
    ability: Ability,
    targets: ScriptEntitySet,
    arg: Option<Seq<char>>,
    function: Seq<char>,
) -> bool {
    &&& ability.active is Some
    &&& call.text@ == spec_script_text(ability.active->0.script@, function, spec_args_string(arg))
    &&& call.function@ == function
    &&& call.parent.index == Some(parent)
    &&& call.ability.id == ability.id
    &&& call.ability.name == ability.name
    &&& call.ability.duration == ability.active->0.duration
    &&& call.ability.ap == ability.active->0.ap
    &&& call.targets == targets
    &&& match arg {
        Some(name) => call.arg is Some && call.arg->0@ == name,
        None => call.arg is None,
    }
}

/// Prepares the calls of ability scripts. It holds nothing: every call is
/// prepared from its arguments alone, so that nothing passes from one
/// invocation to the next.
#[derive(Debug, Clone, PartialEq, Eq)]
pub struct ScriptState {}

impl ScriptState {
    /// A preparer of script calls.
    pub fn new() -> ScriptState {
        ScriptState {  }
    }

    /// The call of the entry point `func` of the script of `ability`. A
    /// passive ability has no script and yields an error.
    pub fn ability_script(
        &self,
        parent: usize,
        ability: &Ability,
        targets: ScriptEntitySet,
        arg: Option<&str>,
        func: &str,
    ) -> (call: Result<ScriptCall, ScriptError>)
        ensures
            ability.active is None ==> call is Err && call->Err_0 == ScriptError::AbilityNotActive,
            ability.active is Some ==> call is Ok && is_call_of(
                call->Ok_0,
                parent,
                *ability,
                targets,
                match arg {
                    Some(name) => Some(name@),
                    None => None,
                },
                func@,
            ),
    {
        let script = match get_script(ability) {
            Ok(script) => script,
            Err(error) => {
                return Err(error);
            },
        };
        let args = args_string(arg);
        let text = script_text(script, func, args.as_str());
        let arg_name = match arg {
            Some(name) => Some(String::from_str(name)),
            None => None,
        };
        Ok(
            ScriptCall {
                text,
                function: String::from_str(func),
                parent: ScriptEntity::from(parent),
                ability: ScriptAbility::from(ability),
                targets,
                arg: arg_name,
            },
        )
    }

    /// The call that is made when `parent` activates `ability`: the entry
    /// point for activation, without targets.
    pub fn ability_on_activate(&self, parent: usize, ability: &Ability) -> (call: Result<
        ScriptCall,
        ScriptError,
    >)
        ensures
            ability.active is None ==> call is Err && call->Err_0 == ScriptError::AbilityNotActive,
            ability.active is Some ==> call is Ok && call->Ok_0.targets.parent == parent
                && call->Ok_0.targets.indices@.len() == 0 && call->Ok_0.targets.point is None
                && is_call_of(
                call->Ok_0,
                parent,
                *ability,
                call->Ok_0.targets,
                None,
                on_activate_name(),
            ),
    {
        let targets = ScriptEntitySet::new(parent, Vec::new());
        self.ability_script(parent, ability, targets, None, "on_activate")
    }

    /// The call that is made when a targeter has committed: the entry point
    /// for selected targets, with the targets and the selected tile.
    pub fn ability_on_target_select(
        &self,
        parent: usize,
        ability: &Ability,
        targets: Vec<Option<usize>>,
        selected_point: Point,
    ) -> (call: Result<ScriptCall, ScriptError>)
        ensures
            ability.active is None ==> call is Err && call->Err_0 == ScriptError::AbilityNotActive,
            ability.active is Some ==> call is Ok && call->Ok_0.targets.parent == parent
                && call->Ok_0.targets.indices == targets && call->Ok_0.targets.point == Some(
                (selected_point.x, selected_point.y),
            ) && is_call_of(
                call->Ok_0,
                parent,
                *ability,
                call->Ok_0.targets,
                None,
                on_target_select_name(),
            ),
    {
        let mut targets = ScriptEntitySet::new(parent, targets);
        targets.point = Some((selected_point.x, selected_point.y));
        self.ability_script(parent, ability, targets, None, "on_target_select")
    }
}

/// Whether `after` is what the actor `before` becomes when a script
/// activates `ability` on it: it spends the action points of the ability
/// where a turn based encounter is under way, and the cooldown of the
/// ability starts where the actor has a state for it. Nothing else changes.
pub open spec fn ability_activated(
    before: ActorState,
    after: ActorState,
    ability: ScriptAbility,
    turn_active: bool,
) -> bool {
    &&& after.ap == if turn_active {
        ap_after(before.ap, ability.ap)
    } else {
        before.ap
    }
    &&& match find_state(before.ability_states@, ability.id@) {
        Some(index) => after.ability_states@ == before.ability_states@.update(
            index,
            before.ability_states@[index].activated(),
        ),
        None => after.ability_states == before.ability_states,
    }
    &&& after.actor == before.actor
    &&& after.stats == before.stats
    &&& after.hp == before.hp
    &&& after.xp == before.xp
    &&& after.has_level_up == before.has_level_up
    &&& after.inventory == before.inventory
    &&& after.effects == before.effects
}

/// Whether `after` is the area `before` with nothing changed but the actor
/// of the entity in the slot `handle`.
pub open spec fn same_but_actor(before: AreaState, after: AreaState, handle: usize) -> bool {
    &&& after.width == before.width
    &&& after.height == before.height
    &&& after.passable == before.passable
    &&& after.turn_active == before.turn_active
    &&& after.props == before.props
    &&& after.entities@.len() == before.entities@.len()
    &&& forall|h: int|
        0 <= h < before.entities@.len() && h != handle ==> after.entities@[h]
            == before.entities@[h]
    &&& after.live(handle)
    &&& after.entity(handle).location == before.entity(handle).location
    &&& after.entity(handle).size == before.entity(handle).size
}

/// What a script may call on the simulation.
impl AreaState {
    /// Activates `ability` on `target` for a script. An entity that refers
    /// to nothing is an error; an entity that has left the area is not, and
    /// nothing happens.
    pub fn ability_activate(
        &mut self,
        ability: &ScriptAbility,
        target: ScriptEntity,
    ) -> (done: Result<(), ScriptError>)
        ensures
            match target.index {
                None => done == Err::<(), ScriptError>(ScriptError::EntityMissing) && *final(self)
                    == *old(self),
                Some(handle) => done is Ok && if old(self).live(handle) {
                    &&& same_but_actor(*old(self), *final(self), handle)
                    &&& ability_activated(
                        old(self).entity(handle).actor,
                        final(self).entity(handle).actor,
                        *ability,
                        old(self).turn_active,
                    )
                } else {
                    *final(self) == *old(self)
                },
            },
    {
        let handle = match target.try_unwrap_index() {
            Ok(handle) => handle,
            Err(error) => {
                return Err(error);
            },
        };
        if !self.is_live(handle) {
            return Ok(());
        }
        let turn_active = self.turn_active;
        match &mut self.entities[handle] {
            Some(entity) => {
                if turn_active {
                    entity.actor.remove_ap(ability.ap);
                }
                entity.actor.activate_ability_state(ability.id.as_str());
            },
            None => {},
        }
        Ok(())
    }

    /// Tells a script whether `entity` could stand at column `x` and row
    /// `y`. An entity that refers to nothing is an error; one that has left
    /// the area could stand nowhere.
    pub fn script_is_passable(&self, entity: ScriptEntity, x: i32, y: i32) -> (passable: Result<
        bool,
        ScriptError,
    >)
        ensures
            match entity.index {
                None => passable == Err::<bool, ScriptError>(ScriptError::EntityMissing),
                Some(handle) => passable == Ok::<bool, ScriptError>(
                    self.live(handle) && self.footprint_passable(
                        self.entity(handle).size,
                        x as int,
                        y as int,
                    ),
                ),
            },
    {
        match entity.try_unwrap_index() {
            Ok(handle) => Ok(self.is_passable_for(handle, x, y)),
            Err(error) => Err(error),
        }
    }
}

} // verus!
