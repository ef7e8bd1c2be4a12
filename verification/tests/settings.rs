use helper_supervisor::settings::{AppSettings, SettingsFailure, settings_text_or_empty, SETTINGS_FILE_NAME};

fn settings(relaunch_on_close: bool, allow_minimize: bool, always_on_top: bool) -> AppSettings {
    AppSettings { relaunch_on_close, allow_minimize, always_on_top }
}

#[test]
fn defaults() {
    assert_eq!(AppSettings::default(), settings(true, false, true));
    assert_eq!(AppSettings::from_flags(None, None, None), settings(true, false, true));
}

#[test]
fn given_flags_override_defaults() {
    assert_eq!(AppSettings::from_flags(Some(false), None, None), settings(false, false, true));
    assert_eq!(AppSettings::from_flags(None, Some(true), None), settings(true, true, true));
    assert_eq!(AppSettings::from_flags(None, None, Some(false)), settings(true, false, false));
    assert_eq!(AppSettings::from_flags(Some(true), Some(false), Some(true)), settings(true, false, true));
    assert_eq!(AppSettings::from_flags(Some(false), Some(true), Some(false)), settings(false, true, false));
}

#[test]
fn missing_file_gives_defaults() {
    assert_eq!(AppSettings::from_text(None), settings(true, false, true));
}

#[test]
fn text_that_is_not_json_gives_defaults() {
    for text in ["", "   ", "{", "not json", "{\"relaunchOnClose\": false", "{\"relaunchOnClose\": false} trailing", "{relaunchOnClose: false}"] {
        assert_eq!(AppSettings::from_text(Some(text)), settings(true, false, true), "{}", text);
    }
}

#[test]
fn flags_are_read_from_the_document() {
    let text = "{\"relaunchOnClose\": false, \"allowMinimize\": true, \"alwaysOnTop\": false}";
    assert_eq!(AppSettings::from_text(Some(text)), settings(false, true, false));
    let text = "{\"relaunchOnClose\": true, \"allowMinimize\": false, \"alwaysOnTop\": true}";
    assert_eq!(AppSettings::from_text(Some(text)), settings(true, false, true));
}

#[test]
fn each_flag_is_read_under_its_own_name() {
    assert_eq!(AppSettings::from_text(Some("{\"relaunchOnClose\": false}")), settings(false, false, true));
    assert_eq!(AppSettings::from_text(Some("{\"allowMinimize\": true}")), settings(true, true, true));
    assert_eq!(AppSettings::from_text(Some("{\"alwaysOnTop\": false}")), settings(true, false, false));
    assert_eq!(AppSettings::from_text(Some("{\"relaunchonclose\": false}")), settings(true, false, true));
}

#[test]
fn members_that_are_no_booleans_give_defaults() {
    let text = "{\"relaunchOnClose\": \"false\", \"allowMinimize\": 1, \"alwaysOnTop\": null}";
    assert_eq!(AppSettings::from_text(Some(text)), settings(true, false, true));
    let text = "{\"relaunchOnClose\": [false], \"allowMinimize\": {\"value\": true}, \"alwaysOnTop\": 0}";
    assert_eq!(AppSettings::from_text(Some(text)), settings(true, false, true));
}

#[test]
fn documents_that_are_no_objects_give_defaults() {
    for text in ["[false, true, false]", "false", "null", "42", "\"relaunchOnClose\""] {
        assert_eq!(AppSettings::from_text(Some(text)), settings(true, false, true), "{}", text);
    }
}

#[test]
fn unknown_members_do_not_disturb() {
    let text = "{\"theme\": \"dark\", \"hosts\": [\"a\", \"b\"], \"relaunchOnClose\": false, \"nested\": {\"relaunchOnClose\": true}}";
    assert_eq!(AppSettings::from_text(Some(text)), settings(false, false, true));
}

#[test]
fn nested_members_are_not_read() {
    let text = "{\"window\": {\"alwaysOnTop\": false, \"allowMinimize\": true}}";
    assert_eq!(AppSettings::from_text(Some(text)), settings(true, false, true));
}

#[test]
fn read_answers_empty_text_for_a_missing_file() {
    assert_eq!(settings_text_or_empty(None), "");
    assert_eq!(settings_text_or_empty(Some("{\"a\": 1}".to_string())), "{\"a\": 1}");
    assert_eq!(settings_text_or_empty(Some(String::new())), "");
}

#[test]
fn failure_messages() {
    assert_eq!(SETTINGS_FILE_NAME, "settings.json");
    assert_eq!(SettingsFailure::NoAppDirectory.message(), "Failed to get app directory");
    assert_eq!(
        SettingsFailure::Read("permission denied".to_string()).message(),
        "Failed to read settings: permission denied"
    );
    assert_eq!(
        SettingsFailure::CreateDirectory("read-only".to_string()).message(),
        "Failed to create app directory: read-only"
    );
    assert_eq!(
        SettingsFailure::Write("disk full".to_string()).message(),
        "Failed to save settings: disk full"
    );
}
