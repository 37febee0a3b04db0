use verandah_plugin_pomodoro::config::{
    Config, ConfigBuilder, DEFAULT_INTERVAL_MS, DEFAULT_LONG_BREAK_MINS,
};
use verandah_plugin_pomodoro::render::{FillDirection, PhaseIndicatorDisplay, RenderMode};
use verandah_plugin_pomodoro::table::Table;
use verandah_plugin_pomodoro::timer::Timer;

/// Fills a table from the string entries of a TOML table.
fn table_from(value: Option<&toml::Value>) -> Table {
    let mut table = Table::new();
    if let Some(entries) = value.and_then(|value| value.as_table()) {
        for (key, value) in entries {
            if let Some(text) = value.as_str() {
                table.insert(key.clone(), text.to_string());
            }
        }
    }
    table
}

/// Reads a builder from TOML text, field by field.
fn builder_from_toml(text: &str) -> ConfigBuilder {
    let document: toml::Table = text.parse().unwrap();
    let mut builder = ConfigBuilder::default();
    for (key, value) in &document {
        match key.as_str() {
            "work" => builder.work = value.as_integer().unwrap() as u64,
            "short_break" => builder.short_break = value.as_integer().unwrap() as u64,
            "long_break" => builder.long_break = value.as_integer().unwrap() as u64,
            "auto_start_work" => builder.auto_start_work = value.as_bool().unwrap(),
            "auto_start_break" => builder.auto_start_break = value.as_bool().unwrap(),
            "interval" => builder.interval = value.as_integer().unwrap() as u64,
            "render_mode" => builder.render_mode = value.as_str().unwrap().to_string(),
            "fill_direction" => builder.fill_direction = value.as_str().unwrap().to_string(),
            "phase_indicator_display" => {
                builder.phase_indicator_display = value.as_str().unwrap().to_string()
            }
            "pulse_on_pause" => builder.pulse_on_pause = value.as_bool().unwrap(),
            "sounds" => builder.sounds = table_from(Some(value)),
            "phases" => builder.phases = table_from(Some(value)),
            "labels" => builder.labels = table_from(Some(value)),
            "colors" | "colours" => builder.colors = table_from(Some(value)),
            _ => builder.unknown.push(key.clone()),
        }
    }
    builder
}

#[test]
fn test_config_builder_defaults() {
    let cfg = ConfigBuilder::default().build();
    assert_eq!(cfg.work, 25);
    assert_eq!(cfg.short_break, 5);
    assert_eq!(cfg.long_break, 15);
    assert!(!cfg.auto_start_work);
    assert!(!cfg.auto_start_break);
    assert_eq!(cfg.colors.get("fg"), Some(&"#ffffff".to_string()));
    assert_eq!(cfg.colors.get("work_bg"), Some(&"#e57373".to_string()));
    assert_eq!(cfg.colors.get("break_bg"), Some(&"#81c784".to_string()));
    assert_eq!(cfg.colors.get("paused_bg"), Some(&"#7f8c8d".to_string()));
    assert_eq!(cfg.colors.get("empty_bg"), Some(&"#2c3e50".to_string()));
}

#[test]
fn test_config_parse_toml() {
    let toml_str = r##"
work = 30
short_break = 10
auto_start_work = true

[colors]
fg = "#000000"
work_bg = "#ff0000"

[sounds]
work = "bell.wav"
"##;
    let cfg: Config = builder_from_toml(toml_str).build();
    assert_eq!(cfg.work, 30);
    assert_eq!(cfg.short_break, 10);
    assert!(cfg.auto_start_work);
    assert_eq!(cfg.colors.get("fg"), Some(&"#000000".to_string()));
    assert_eq!(cfg.colors.get("work_bg"), Some(&"#ff0000".to_string()));
    // defaults should still be present for unspecified fields
    assert_eq!(cfg.long_break, DEFAULT_LONG_BREAK_MINS);
    assert_eq!(cfg.sounds.get("work"), Some(&"bell.wav".to_string()));
}

#[test]
fn test_config_parse_inline_tables() {
    let toml_str = r##"
work = 25
colors = { fg = "#ffffff", work_bg = "#e57373" }
"##;
    let cfg: Config = builder_from_toml(toml_str).build();
    assert_eq!(cfg.work, 25);
    assert_eq!(cfg.colors.get("fg"), Some(&"#ffffff".to_string()));
    assert_eq!(cfg.colors.get("work_bg"), Some(&"#e57373".to_string()));
}

#[test]
fn test_config_partial_colors_merged_with_defaults() {
    let toml_str = r##"
[colors]
fg = "#000000"
"##;
    let cfg: Config = builder_from_toml(toml_str).build();
    // User-specified value should be preserved
    assert_eq!(cfg.colors.get("fg"), Some(&"#000000".to_string()));
    // Defaults should be filled in for unspecified keys
    assert_eq!(cfg.colors.get("work_bg"), Some(&"#e57373".to_string()));
    assert_eq!(cfg.colors.get("break_bg"), Some(&"#81c784".to_string()));
    assert_eq!(cfg.colors.get("paused_bg"), Some(&"#7f8c8d".to_string()));
}

#[test]
fn test_config_partial_labels_merged_with_defaults() {
    let toml_str = r##"
[labels]
work = "WORK"
"##;
    let cfg: Config = builder_from_toml(toml_str).build();
    // User-specified value should be preserved
    assert_eq!(cfg.labels.get("work"), Some(&"WORK".to_string()));
    // Default should be filled in
    assert_eq!(cfg.labels.get("paused"), Some(&"PAUSED".to_string()));
}

#[test]
fn test_config_unknown_fields_captured() {
    let toml_str = r##"
work = 25
unknown_field = "value"
another_unknown = 42
"##;
    let builder: ConfigBuilder = builder_from_toml(toml_str);
    // Unknown fields should be captured in the builder
    assert!(builder.unknown.contains(&"unknown_field".to_string()));
    assert!(builder.unknown.contains(&"another_unknown".to_string()));
    // Known fields should still work
    assert_eq!(builder.work, 25);
}

#[test]
fn default_config_is_the_default_build() {
    let cfg = Config::default();
    assert_eq!(cfg.work, 25);
    assert_eq!(cfg.short_break, 5);
    assert_eq!(cfg.long_break, 15);
    assert_eq!(cfg.interval, DEFAULT_INTERVAL_MS);
    assert_eq!(cfg.render_mode, RenderMode::Text);
    assert_eq!(cfg.fill_direction, FillDirection::EmptyToFull);
    assert_eq!(cfg.phase_indicator_display, PhaseIndicatorDisplay::Paused);
    assert!(!cfg.pulse_on_pause);
    assert_eq!(cfg.colors.get("dot_running"), Some(&"#008000".to_string()));
    assert_eq!(cfg.colors.get("dot_paused"), Some(&"#808080".to_string()));
    assert_eq!(cfg.colors.get("bg"), None);
    assert_eq!(cfg.labels.get("paused"), Some(&"PAUSED".to_string()));
    assert_eq!(cfg.labels.get("work"), None);
    assert_eq!(cfg.sounds.get("work"), None);
    assert_eq!(cfg.phases.get("work"), None);
}

#[test]
fn zero_durations_are_clamped_to_one_minute() {
    let mut builder = ConfigBuilder::default();
    builder.work = 0;
    builder.short_break = 0;
    builder.long_break = 0;
    let cfg = builder.build();
    assert_eq!(cfg.work, 1);
    assert_eq!(cfg.short_break, 1);
    assert_eq!(cfg.long_break, 1);
    let timer = Timer::new(&cfg);
    assert_eq!(timer.remaining_secs(), 60);
}

#[test]
fn unknown_mode_names_fall_back_to_defaults() {
    let mut builder = ConfigBuilder::default();
    builder.render_mode = "Ripen".to_string();
    builder.fill_direction = "sideways".to_string();
    builder.phase_indicator_display = "".to_string();
    let cfg = builder.build();
    assert_eq!(cfg.render_mode, RenderMode::Text);
    assert_eq!(cfg.fill_direction, FillDirection::EmptyToFull);
    assert_eq!(cfg.phase_indicator_display, PhaseIndicatorDisplay::Paused);
}

#[test]
fn known_mode_names_are_taken() {
    let mut builder = ConfigBuilder::default();
    builder.render_mode = "fill_icon".to_string();
    builder.fill_direction = "full_to_empty".to_string();
    builder.phase_indicator_display = "none".to_string();
    builder.pulse_on_pause = true;
    builder.interval = 250;
    let cfg = builder.build();
    assert_eq!(cfg.render_mode, RenderMode::FillIcon);
    assert_eq!(cfg.fill_direction, FillDirection::FullToEmpty);
    assert_eq!(cfg.phase_indicator_display, PhaseIndicatorDisplay::Never);
    assert!(cfg.pulse_on_pause);
    assert_eq!(cfg.interval, 250);
}

#[test]
fn widget_id_is_no_unknown_field() {
    let mut builder = ConfigBuilder::default();
    builder.unknown.push("_widget_id".to_string());
    builder.unknown.push("colour".to_string());
    builder.unknown.push("_widget_id".to_string());
    builder.unknown.push("wrok".to_string());
    assert_eq!(builder.unknown_fields(), vec!["colour".to_string(), "wrok".to_string()]);
    assert!(ConfigBuilder::default().unknown_fields().is_empty());
}

#[test]
fn table_keeps_the_latest_value_of_a_key() {
    let mut table = Table::new();
    assert_eq!(table.get("fg"), None);
    assert!(!table.contains_key("fg"));
    table.insert("fg".to_string(), "#111111".to_string());
    table.insert("bg".to_string(), "#222222".to_string());
    table.insert("fg".to_string(), "#333333".to_string());
    assert_eq!(table.get("fg"), Some(&"#333333".to_string()));
    assert_eq!(table.get("bg"), Some(&"#222222".to_string()));
    assert_eq!(table.get("f"), None);
    assert!(table.contains_key("bg"));
    assert_eq!(table.entries().len(), 3);
}

#[test]
fn table_extend_prefers_the_other_table() {
    let mut base = Table::new();
    base.insert("a".to_string(), "1".to_string());
    base.insert("b".to_string(), "2".to_string());
    let mut other = Table::new();
    other.insert("b".to_string(), "20".to_string());
    other.insert("c".to_string(), "30".to_string());
    base.extend(&other);
    assert_eq!(base.get("a"), Some(&"1".to_string()));
    assert_eq!(base.get("b"), Some(&"20".to_string()));
    assert_eq!(base.get("c"), Some(&"30".to_string()));
    assert_eq!(base.get("d"), None);
}
