//! The configuration of the program and the check that a configuration
//! passes before it is used.

use std::collections::HashMap;
use vstd::prelude::*;
use crate::text::str_eq;

verus! {

/// Which display backend to use.
#[derive(Debug, Copy, Clone, PartialEq, Eq, Structural)]
pub enum IOAdapter {
    Auto,
    Glium,
}

/// The area that the editor starts with.
#[derive(Debug, Clone, PartialEq, Eq)]
pub struct EditorAreaConfig {
    pub filename: String,
    pub id: String,
    pub name: String,
    pub visibility_tile: String,
    pub explored_tile: String,
    pub layers: Vec<String>,
    pub elev_tiles: Vec<String>,
    pub entity_layer: usize,
}

/// The settings of the editor.
#[derive(Debug, Clone, PartialEq, Eq)]
pub struct EditorConfig {
    pub module: String,
    pub cursor: String,
    pub transition_image: String,
    pub transition_size: String,
    pub area: EditorAreaConfig,
}

/// The settings of the log.
#[derive(Debug, Clone, PartialEq, Eq)]
pub struct LoggingConfig {
    pub log_level: String,
    pub use_timestamps: bool,
}

/// The settings of the display. Width and height are in characters.
#[derive(Debug, Clone, PartialEq, Eq)]
pub struct DisplayConfig {
    pub adapter: IOAdapter,
    pub frame_rate: u32,
    pub animation_base_time_millis: u32,
    pub width: i32,
    pub height: i32,
    pub width_pixels: u32,
    pub height_pixels: u32,
    pub default_font: String,
}

/// Where the resources are.
#[derive(Debug, Clone, PartialEq, Eq)]
pub struct ResourcesConfig {
    pub directory: String,
}

/// A key that was pressed, by its code.
#[derive(Debug, Copy, Clone, PartialEq, Eq, Structural)]
pub struct KeyboardEvent {
    pub key: u32,
}

/// Which action each key stands for, both by their codes.
#[derive(Debug, Clone, PartialEq, Eq)]
pub struct InputConfig {
    pub keybindings: HashMap<u32, u32>,
}

/// The whole configuration.
#[derive(Debug, Clone, PartialEq, Eq)]
pub struct Config {
    pub display: DisplayConfig,
    pub resources: ResourcesConfig,
    pub input: InputConfig,
    pub logging: LoggingConfig,
    pub editor: EditorConfig,
}

/// Why a configuration is refused.
#[derive(Debug, Copy, Clone, PartialEq, Eq, Structural)]
pub enum ConfigError {
    /// The log level is none of error, warn, info, debug and trace.
    LogLevel,
    /// The display is smaller than 80 by 24 characters.
    DisplaySize,
}

/// Whether `level` names a log level.
pub open spec fn is_log_level(level: Seq<char>) -> bool {
    level == "error"@ || level == "warn"@ || level == "info"@ || level == "debug"@ || level
        == "trace"@
}

/// The smallest width of the display, in characters.
pub const MIN_DISPLAY_WIDTH: i32 = 80;

/// The smallest height of the display, in characters.
pub const MIN_DISPLAY_HEIGHT: i32 = 24;

impl Config {
    /// Why the configuration is refused, if it is. The log level is looked
    /// at first.
    pub open spec fn defect(self) -> Option<ConfigError> {
        if !is_log_level(self.logging.log_level@) {
            Some(ConfigError::LogLevel)
        } else if self.display.width < MIN_DISPLAY_WIDTH || self.display.height
            < MIN_DISPLAY_HEIGHT {
            Some(ConfigError::DisplaySize)
        } else {
            None
        }
    }

    /// Hands the configuration back where it can be used, and says why
    /// where it cannot.
    pub fn check(self) -> (checked: Result<Config, ConfigError>)
        ensures
            match self.defect() {
                Some(error) => checked == Err::<Config, ConfigError>(error),
                None => checked == Ok::<Config, ConfigError>(self),
            },
    {
        let level = self.logging.log_level.as_str();
        if !(str_eq(level, "error") || str_eq(level, "warn") || str_eq(level, "info") || str_eq(
            level,
            "debug",
        ) || str_eq(level, "trace")) {
            return Err(ConfigError::LogLevel);
        }
        if self.display.width < MIN_DISPLAY_WIDTH || self.display.height < MIN_DISPLAY_HEIGHT {
            return Err(ConfigError::DisplaySize);
        }
        Ok(self)
    }

    /// The action that the pressed key stands for, if a key was pressed and
    /// it stands for one.
    pub fn get_input_action(&self, k: Option<KeyboardEvent>) -> (action: Option<u32>)
        ensures
            action == match k {
                None => None,
                Some(event) => if self.input.keybindings@.contains_key(event.key) {
                    Some(self.input.keybindings@[event.key])
                } else {
                    None
                },
            },
    {
        broadcast use vstd::std_specs::hash::group_hash_axioms;

        match k {
            None => None,
            Some(event) => match self.input.keybindings.get(&event.key) {
                None => None,
                Some(action) => Some(*action),
            },
        }
    }
}

} // verus!
