//! The simulation as one value: the authored data, the area, and the
//! targeter that is under way, if any.
//!
//! The functions here decide what happens on a request: which script call
//! is to be made, or why none is. They run no script themselves. A request
//! that is refused leaves the simulation exactly as it was.

use vstd::prelude::*;
use crate::ability::Ability;
use crate::actor::ability_named;
use crate::area::AreaState;
use crate::module::Module;
use crate::script::{
    is_call_of, on_activate_name, on_target_select_name, ScriptCall, ScriptError, ScriptState,
};
use crate::targeter::{activate, affected, Targeter, TargeterData, TargeterState};

verus! {

/// Why a request is refused.
#[derive(Debug, Copy, Clone, PartialEq, Eq, Structural)]
pub enum RequestError {
    /// No targeter is under way.
    NoTargeter,
    /// The acting entity has left the area.
    ParentGone,
    /// The acting entity has no ability of that id.
    UnknownAbility,
    /// The ability is passive and has no script.
    AbilityNotActive,
    /// The ability is on cooldown, or the action points do not cover it, or
    /// the actor has no state for it.
    CannotActivate,
    /// The selection under the cursor is not valid, or the targeter is not
    /// active.
    InvalidSelection,
}

/// The simulation.
#[derive(Debug, Clone, PartialEq, Eq)]
pub struct Simulation {
    pub module: Module,
    pub area: AreaState,
    pub targeter: Option<Targeter>,
}

impl Simulation {
    /// Why the entity `parent` cannot activate `ability`, if it cannot.
    pub open spec fn activation_error(self, parent: usize, ability: Ability) -> Option<
        RequestError,
    > {
        if !self.area.live(parent) {
            Some(RequestError::ParentGone)
        } else if !self.area.entity(parent).actor.spec_can_activate(ability.id@) {
            Some(RequestError::CannotActivate)
        } else if ability.active is None {
            Some(RequestError::AbilityNotActive)
        } else {
            None
        }
    }

    /// Why the targeter cannot be committed, if it cannot.
    pub open spec fn commit_error(self) -> Option<RequestError> {
        if self.targeter is None {
            Some(RequestError::NoTargeter)
        } else if !self.area.live(self.targeter->0.data.parent) {
            Some(RequestError::ParentGone)
        } else if self.committed_ability() is None {
            Some(RequestError::UnknownAbility)
        } else if self.committed_ability()->0.active is None {
            Some(RequestError::AbilityNotActive)
        } else if self.targeter->0.commit_point(self.area, self.module.object_sizes@) is None {
            Some(RequestError::InvalidSelection)
        } else {
            None
        }
    }

    /// The ability that the targeter selects targets for, as the acting
    /// entity holds it.
    pub open spec fn committed_ability(self) -> Option<Ability> {
        ability_named(
            self.area.entity(self.targeter->0.data.parent).actor.actor.abilities@,
            self.targeter->0.data.ability_id@,
        )
    }

    /// A simulation of the given area without a targeter.
    pub fn new(module: Module, area: AreaState) -> (simulation: Simulation)
        ensures
            simulation.module == module,
            simulation.area == area,
            simulation.targeter is None,
    {
        Simulation { module, area, targeter: None }
    }

    /// Decides on the request of `parent` to activate `ability`. Where the
    /// entity is in the area, can activate the ability and the ability has a
    /// script, the call of the entry point for activation is handed back.
    /// Otherwise the request is refused. The simulation itself does not
    /// change either way: action points are spent and the cooldown starts
    /// only when the script asks for it.
    pub fn activate_ability(&self, parent: usize, ability: &Ability) -> (call: Result<
        ScriptCall,
        RequestError,
    >)
        ensures
            match self.activation_error(parent, *ability) {
                Some(error) => call == Err::<ScriptCall, RequestError>(error),
                None => call is Ok && call->Ok_0.targets.parent == parent
                    && call->Ok_0.targets.indices@.len() == 0 && call->Ok_0.targets.point is None
                    && is_call_of(
                    call->Ok_0,
                    parent,
                    *ability,
                    call->Ok_0.targets,
                    None,
                    on_activate_name(),
                ),
            },
    {
        let entity = match self.area.get_entity(parent) {
            Some(entity) => entity,
            None => {
                return Err(RequestError::ParentGone);
            },
        };
        if !entity.actor.can_activate(ability.id.as_str()) {
            return Err(RequestError::CannotActivate);
        }
        match ScriptState::new().ability_on_activate(parent, ability) {
            Ok(call) => Ok(call),
            Err(_) => Err(RequestError::AbilityNotActive),
        }
    }

    /// Puts an active targeter for what a script has set up in place of the
    /// targeter that was under way, if any. A setup that names an object
    /// size which the authored data do not hold is refused, and nothing
    /// changes. Area and authored data do not change either way.
    pub fn set_targeter(&mut self, data: TargeterData) -> (done: Result<(), ScriptError>)
        ensures
            final(self).area == old(self).area,
            final(self).module == old(self).module,
            data.resolves(old(self).module.object_sizes@) ==> done is Ok && final(self).targeter
                == Some(
                Targeter { data, state: TargeterState::Active, free_cancel: true, cursor: None },
            ),
            !data.resolves(old(self).module.object_sizes@) ==> done == Err::<(), ScriptError>(
                ScriptError::UnknownObjectSize,
            ) && final(self).targeter == old(self).targeter,
    {
        match activate(data, &self.module.object_sizes) {
            Ok(targeter) => {
                self.targeter = Some(targeter);
                Ok(())
            },
            Err(error) => Err(error),
        }
    }

    /// Moves the cursor of the targeter and says which entity the player
    /// would pick there. Without a targeter nothing happens.
    pub fn on_mouse_move(&mut self, x: i32, y: i32) -> (picked: Option<usize>)
        ensures
            final(self).area == old(self).area,
            final(self).module == old(self).module,
            match old(self).targeter {
                None => final(self).targeter is None && picked is None,
                Some(targeter) => final(self).targeter is Some && if targeter.state
                    == TargeterState::Active {
                    final(self).targeter->0 == (Targeter {
                        cursor: Some(crate::geometry::Point { x, y }),
                        ..targeter
                    }) && picked == final(self).targeter->0.spec_hovered(old(self).area)
                } else {
                    final(self).targeter->0 == targeter && picked is None
                },
            },
    {
        match &mut self.targeter {
            Some(targeter) => targeter.on_mouse_move(&self.area, x, y),
            None => None,
        }
    }

    /// Commits the targeter and hands back the call of the entry point for
    /// selected targets, with the affected entities and the selected tile.
    /// The targeter is then done and leaves the simulation. Where the commit
    /// is refused, the simulation stays exactly as it was. Area and authored
    /// data do not change either way.
    pub fn on_activate(&mut self) -> (call: Result<ScriptCall, RequestError>)
        ensures
            final(self).area == old(self).area,
            final(self).module == old(self).module,
            match old(self).commit_error() {
                Some(error) => call == Err::<ScriptCall, RequestError>(error)
                    && final(self).targeter == old(self).targeter,
                None => {
                    let targeter = old(self).targeter->0;
                    let point = targeter.commit_point(
                        old(self).area,
                        old(self).module.object_sizes@,
                    )->0;
                    &&& final(self).targeter is None
                    &&& call is Ok
                    &&& call->Ok_0.targets.parent == targeter.data.parent
                    &&& call->Ok_0.targets.indices@ == affected(
                        targeter.data.effectable@,
                        targeter.data.shape,
                        old(self).module.object_sizes@,
                        old(self).area,
                        targeter.cursor->0,
                    )
                    &&& call->Ok_0.targets.point == Some((point.x, point.y))
                    &&& is_call_of(
                        call->Ok_0,
                        targeter.data.parent,
                        old(self).committed_ability()->0,
                        call->Ok_0.targets,
                        None,
                        on_target_select_name(),
                    )
                },
            },
    {
        let mut targeter = match self.targeter.take() {
            Some(targeter) => targeter,
            None => {
                return Err(RequestError::NoTargeter);
            },
        };
        let parent = targeter.data.parent;
        let entity = match self.area.get_entity(parent) {
            Some(entity) => entity,
            None => {
                self.targeter = Some(targeter);
                return Err(RequestError::ParentGone);
            },
        };
        let ability = match entity.actor.find_ability(targeter.data.ability_id.as_str()) {
            Some(ability) => ability,
            None => {
                self.targeter = Some(targeter);
                return Err(RequestError::UnknownAbility);
            },
        };
        if ability.active.is_none() {
            self.targeter = Some(targeter);
            return Err(RequestError::AbilityNotActive);
        }
        let targets = match targeter.on_activate(&self.area, &self.module.object_sizes) {
            Some(targets) => targets,
            None => {
                self.targeter = Some(targeter);
                return Err(RequestError::InvalidSelection);
            },
        };
        let point = match targets.point {
            Some((x, y)) => crate::geometry::Point { x, y },
            None => crate::geometry::Point { x: 0, y: 0 },
        };
        match ScriptState::new().ability_on_target_select(parent, ability, targets.indices, point) {
            Ok(call) => Ok(call),
            Err(_) => Err(RequestError::AbilityNotActive),
        }
    }

    /// Cancels the targeter and takes it out of the simulation, handing it
    /// back as it was but for its state. A targeter that does not allow the
    /// player to cancel freely is cancelled only where `forced` is set.
    /// Where nothing is cancelled nothing changes. No script is called, and
    /// area and authored data stay exactly as they were.
    pub fn on_cancel(&mut self, forced: bool) -> (cancelled: Option<Targeter>)
        ensures
            final(self).area == old(self).area,
            final(self).module == old(self).module,
            match old(self).targeter {
                Some(targeter) => if targeter.state == TargeterState::Active && (forced
                    || targeter.free_cancel) {
                    &&& final(self).targeter is None
                    &&& cancelled == Some(
                        Targeter { state: TargeterState::Cancelled, ..targeter },
                    )
                    &&& cancelled->0.data == targeter.data
                } else {
                    final(self).targeter == old(self).targeter && cancelled is None
                },
                None => final(self).targeter is None && cancelled is None,
            },
    {
        let mut targeter = match self.targeter.take() {
            Some(targeter) => targeter,
            None => {
                return None;
            },
        };
        if targeter.state == TargeterState::Active && (forced || targeter.cancel()) {
            targeter.on_cancel();
            Some(targeter)
        } else {
            self.targeter = Some(targeter);
            None
        }
    }
}

} // verus!
