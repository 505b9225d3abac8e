use std::collections::HashMap;
use sulis::config::{
    Config, ConfigError, DisplayConfig, EditorAreaConfig, EditorConfig, IOAdapter, InputConfig,
    KeyboardEvent, LoggingConfig, ResourcesConfig, MIN_DISPLAY_HEIGHT, MIN_DISPLAY_WIDTH,
};

fn config_with(log_level: &str, width: i32, height: i32) -> Config {
    let mut keybindings = HashMap::new();
    keybindings.insert(27, 1);
    keybindings.insert(32, 7);
    Config {
        display: DisplayConfig {
            adapter: IOAdapter::Auto,
            frame_rate: 30,
            animation_base_time_millis: 50,
            width,
            height,
            width_pixels: 1280,
            height_pixels: 720,
            default_font: String::from("normal"),
        },
        resources: ResourcesConfig { directory: String::from("data") },
        input: InputConfig { keybindings },
        logging: LoggingConfig { log_level: String::from(log_level), use_timestamps: true },
        editor: EditorConfig {
            module: String::from("module"),
            cursor: String::from("cursor"),
            transition_image: String::from("image"),
            transition_size: String::from("size"),
            area: EditorAreaConfig {
                filename: String::from("area.yml"),
                id: String::from("area"),
                name: String::from("Area"),
                visibility_tile: String::from("vis"),
                explored_tile: String::from("exp"),
                layers: vec![String::from("ground")],
                elev_tiles: Vec::new(),
                entity_layer: 1,
            },
        },
    }
}

#[test]
fn a_configuration_with_known_log_level_and_large_display_passes() {
    for level in ["error", "warn", "info", "debug", "trace"] {
        assert_eq!(config_with(level, 80, 24).check(), Ok(config_with(level, 80, 24)));
    }
    assert_eq!(config_with("info", i32::MAX, i32::MAX).check().unwrap().display.width, i32::MAX);
    assert_eq!(MIN_DISPLAY_WIDTH, 80);
    assert_eq!(MIN_DISPLAY_HEIGHT, 24);
}

#[test]
fn an_unknown_log_level_is_refused() {
    for level in ["", "Info", "verbose", "warning", "trace "] {
        assert_eq!(config_with(level, 80, 24).check(), Err(ConfigError::LogLevel));
    }
    // the log level is looked at first
    assert_eq!(config_with("all", 1, 1).check(), Err(ConfigError::LogLevel));
}

#[test]
fn a_display_below_eighty_by_twenty_four_is_refused() {
    assert_eq!(config_with("info", 79, 24).check(), Err(ConfigError::DisplaySize));
    assert_eq!(config_with("info", 80, 23).check(), Err(ConfigError::DisplaySize));
    assert_eq!(config_with("info", 0, 0).check(), Err(ConfigError::DisplaySize));
    assert_eq!(config_with("info", -80, 100).check(), Err(ConfigError::DisplaySize));
    assert_eq!(config_with("info", i32::MAX, i32::MIN).check(), Err(ConfigError::DisplaySize));
}

#[test]
fn a_key_stands_for_the_action_bound_to_it() {
    let config = config_with("info", 80, 24);
    assert_eq!(config.get_input_action(Some(KeyboardEvent { key: 27 })), Some(1));
    assert_eq!(config.get_input_action(Some(KeyboardEvent { key: 32 })), Some(7));
    assert_eq!(config.get_input_action(Some(KeyboardEvent { key: 1 })), None);
    assert_eq!(config.get_input_action(None), None);
}
