use curosu::number::Number;
use curosu::settings::{
    holds_name, legacy_settings_path, settings_exist, settings_path, source, Settings, Source,
    StoredSettings,
};

fn number(value: f64) -> Number {
    Number::from_bits(value.to_bits())
}

fn strings(value: &serde_json::Value) -> Option<Vec<String>> {
    let list = value.as_array()?;
    list.iter().map(|item| item.as_str().map(str::to_string)).collect()
}

fn stored(text: &str) -> Option<StoredSettings> {
    let value: serde_json::Value = serde_json::from_str(text).ok()?;
    Some(StoredSettings {
        cursor_width: number(value.get("cursor_width")?.as_f64()?),
        auto_start: value.get("auto_start")?.as_bool()?,
        tap_sound_enabled: value.get("tap_sound_enabled")?.as_bool()?,
        tap_sound_volume: number(value.get("tap_sound_volume")?.as_f64()?),
        hover_sound_enabled: value.get("hover_sound_enabled")?.as_bool()?,
        hover_sound_volume: number(value.get("hover_sound_volume")?.as_f64()?),
        hover_sound_as_resize_prompt: value.get("hover_sound_as_resize_prompt")?.as_bool()?,
        fullscreen_overlay_exclusions: value
            .get("fullscreen_overlay_exclusions")
            .and_then(|item| item.as_str())
            .map(str::to_string),
        fullscreen_overlay_exclusion_executables: value
            .get("fullscreen_overlay_exclusion_executables")
            .and_then(strings),
    })
}

#[test]
fn legacy_settings_default_the_fullscreen_exclusions() {
    let file = stored(
        r#"{
                "cursor_width": 30.0,
                "auto_start": false,
                "tap_sound_enabled": true,
                "tap_sound_volume": 1.0,
                "hover_sound_enabled": true,
                "hover_sound_volume": 1.0,
                "hover_sound_as_resize_prompt": false
            }"#,
    )
    .expect("legacy settings should deserialize");
    let settings = Settings::load(Some(file));

    assert!(settings.fullscreen_overlay_exclusions.is_empty());
    assert!(settings.fullscreen_overlay_exclusion_executables.is_empty());
}

#[test]
fn stored_settings_are_restored() {
    let file = stored(
        r#"{
                "cursor_width": 200.0,
                "auto_start": true,
                "tap_sound_enabled": false,
                "tap_sound_volume": 0.25,
                "hover_sound_enabled": false,
                "hover_sound_volume": 0.5,
                "hover_sound_as_resize_prompt": true,
                "fullscreen_overlay_exclusions": "a",
                "fullscreen_overlay_exclusion_executables": ["game.exe"]
            }"#,
    );
    let settings = Settings::load(file);
    assert_eq!(settings.cursor_width.bits, 64.0f64.to_bits());
    assert!(settings.auto_start);
    assert!(!settings.tap_sound_enabled);
    assert_eq!(settings.tap_sound_volume.bits, 0.25f64.to_bits());
    assert!(!settings.hover_sound_enabled);
    assert_eq!(settings.hover_sound_volume.bits, 0.5f64.to_bits());
    assert!(settings.hover_sound_as_resize_prompt);
    assert_eq!(settings.fullscreen_overlay_exclusions, "a");
    assert_eq!(settings.fullscreen_overlay_exclusion_executables, ["game.exe"]);
}

#[test]
fn saved_settings_load_back() {
    let mut settings = Settings::default();
    settings.cursor_width = number(44.5);
    settings.auto_start = true;
    settings.hover_sound_volume = number(0.125);
    settings.fullscreen_overlay_exclusions = "rule".to_string();
    settings.add_exclusion("game.exe");
    let again = Settings::load(Some(settings.save()));
    assert!(again.same_as(&settings));
    assert_eq!(again.cursor_width.bits, 44.5f64.to_bits());
    assert_eq!(again.fullscreen_overlay_exclusions, "rule");
    assert_eq!(again.fullscreen_overlay_exclusion_executables, ["game.exe"]);
    assert!(settings.clone().same_as(&settings));
}

#[test]
fn unreadable_settings_become_the_defaults() {
    let settings = Settings::load(stored("{}"));
    assert_eq!(settings.cursor_width.bits, 30.0f64.to_bits());
    assert!(!settings.auto_start);
    assert!(settings.tap_sound_enabled);
    assert_eq!(settings.tap_sound_volume.bits, 1.0f64.to_bits());
    assert!(settings.hover_sound_enabled);
    assert_eq!(settings.hover_sound_volume.bits, 1.0f64.to_bits());
    assert!(!settings.hover_sound_as_resize_prompt);
    assert!(settings.fullscreen_overlay_exclusions.is_empty());
    assert!(settings.fullscreen_overlay_exclusion_executables.is_empty());
    assert!(settings.same_as(&Settings::default()));
}

#[test]
fn narrow_cursors_are_widened() {
    let mut file = stored(
        r#"{"cursor_width": 1.0, "auto_start": false, "tap_sound_enabled": true,
            "tap_sound_volume": 1.0, "hover_sound_enabled": true, "hover_sound_volume": 1.0,
            "hover_sound_as_resize_prompt": false}"#,
    );
    assert!(file.is_some());
    assert_eq!(Settings::load(file.take()).cursor_width.bits, 16.0f64.to_bits());
}

#[test]
fn exclusions_are_listed_once() {
    let mut settings = Settings::default();
    settings.add_exclusion("Game.exe");
    settings.add_exclusion("GAME.EXE");
    settings.add_exclusion("other.exe");
    assert_eq!(settings.fullscreen_overlay_exclusion_executables, ["Game.exe", "other.exe"]);
    assert!(holds_name(&settings.fullscreen_overlay_exclusion_executables, "game.EXE"));
    settings.remove_exclusion(0);
    assert_eq!(settings.fullscreen_overlay_exclusion_executables, ["other.exe"]);
    assert!(!holds_name(&settings.fullscreen_overlay_exclusion_executables, "game.exe"));
}

#[test]
fn every_field_counts_when_settings_are_compared() {
    let plain = Settings::default();
    let mut changed = Settings::default();
    assert!(changed.same_as(&plain));
    changed.cursor_width = number(31.0);
    assert!(!changed.same_as(&plain));
    changed = Settings::default();
    changed.fullscreen_overlay_exclusions = "x".to_string();
    assert!(!changed.same_as(&plain));
    changed = Settings::default();
    changed.add_exclusion("a.exe");
    assert!(!changed.same_as(&plain));
    changed = Settings::default();
    changed.hover_sound_as_resize_prompt = true;
    assert!(!changed.same_as(&plain));
    changed = Settings::default();
    changed.tap_sound_volume = number(-0.0);
    let mut zero = Settings::default();
    zero.tap_sound_volume = number(0.0);
    assert!(changed.same_as(&zero));
}

#[test]
fn paths_start_from_the_given_directory() {
    assert_eq!(
        settings_path(Some("C:\\data".to_string())),
        ["C:\\data", "Curosu", "settings.json"]
    );
    assert_eq!(settings_path(None), [".", "Curosu", "settings.json"]);
    assert_eq!(
        legacy_settings_path(Some("C:\\data".to_string())),
        ["C:\\data", "OsuCursorRs", "settings.json"]
    );
}

#[test]
fn either_file_will_do() {
    assert!(settings_exist(true, false));
    assert!(settings_exist(false, true));
    assert!(!settings_exist(false, false));
    assert!(matches!(source(true, true), Source::Current));
    assert!(matches!(source(false, true), Source::Legacy));
    assert!(matches!(source(false, false), Source::Nowhere));
}
