//! Combat resolution, ability state and target selection for a turn based
//! tactical simulation.
//!
//! The simulation is one value that is handed from call to call: authored
//! data, an area with its registry of entities, and the targeter that is
//! under way. Entities are named by handle, and a handle is checked against
//! the registry wherever it is used. Derived stats are never patched but
//! computed afresh from their sources. Wherever dice are rolled, the
//! function that rolls them stands beside one that takes the numbers as
//! arguments and says exactly what follows from them.
//!
//! Scripts are not run here. The library prepares each script call and
//! decides what each request of a script does; the caller owns the
//! interpreter.

pub mod ability;
pub mod actor;
pub mod area;
pub mod attribute;
pub mod combat;
pub mod config;
pub mod dice;
pub mod effect;
pub mod geometry;
pub mod image;
pub mod inventory;
pub mod label;
pub mod loot;
pub mod module;
pub mod prop;
pub mod report;
pub mod rules;
pub mod script;
pub mod search;
pub mod shape;
pub mod simulation;
pub mod stats;
pub mod targeter;
mod text;
