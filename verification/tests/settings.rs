use std::path::Path;

use kterm::app::model::{ProtocolMode, SettingsTextKey, SettingsToggleKey};
use kterm::app::settings_names::{
    all_texts, all_toggles, name_of_text, name_of_toggle, text_named, toggle_named,
};
use kterm::app::settings_persistence::{
    load_settings, save_settings, SettingsData, SettingsEntry, SettingsError, SettingsSource,
    SettingsValue,
};
use kterm::app::state::State;

fn stored(data: &SettingsData) -> serde_json::Value {
    let mut map = serde_json::Map::new();
    for entry in data.to_entries() {
        let value = match entry.value {
            SettingsValue::Flag(on) => serde_json::Value::Bool(on),
            SettingsValue::Text(text) => serde_json::Value::String(text),
            SettingsValue::Other => serde_json::Value::Null,
        };
        map.insert(entry.name, value);
    }
    serde_json::Value::Object(map)
}

fn entries(json: &str) -> Vec<SettingsEntry> {
    let map: serde_json::Map<String, serde_json::Value> = serde_json::from_str(json).unwrap();
    map.into_iter()
        .map(|(name, value)| SettingsEntry {
            name,
            value: match value {
                serde_json::Value::Bool(on) => SettingsValue::Flag(on),
                serde_json::Value::String(text) => SettingsValue::Text(text),
                _ => SettingsValue::Other,
            },
        })
        .collect()
}

fn load_settings_from(path: &Path) -> SettingsData {
    if !path.exists() {
        return load_settings(SettingsSource::Missing);
    }
    load_settings(SettingsSource::Unreadable)
}

#[test]
fn default_serializes_to_empty_json() {
    let data = SettingsData::default();
    let json = serde_json::to_string(&stored(&data)).unwrap();
    assert_eq!(json, "{}");
}

#[test]
fn only_changed_fields_appear() {
    let mut data = SettingsData::default();
    data.rdp_nla = false;
    data.ssh_terminal_type = "vt100".to_string();
    let json = serde_json::to_string_pretty(&stored(&data)).unwrap();
    assert!(json.contains("rdp_nla"));
    assert!(json.contains("ssh_terminal_type"));
    assert!(!json.contains("auto_reconnect"));
    assert!(!json.contains("common_timeout"));
}

#[test]
fn roundtrip() {
    let mut data = SettingsData::default();
    data.vnc_view_only = true;
    data.serial_parity = "Even".to_string();
    let json = serde_json::to_string(&stored(&data)).unwrap();
    let loaded: SettingsData = SettingsData::from_entries(&entries(&json)).unwrap();
    assert!(loaded.vnc_view_only);
    assert_eq!(loaded.serial_parity, "Even");
    // Non-changed fields should still be defaults
    assert!(loaded.rdp_nla);
    assert_eq!(loaded.common_timeout, "30");
}

#[test]
fn load_nonexistent_returns_default() {
    let data = load_settings_from(Path::new("__nonexistent_test_file__.json"));
    assert_eq!(data.common_timeout, "30");
}

#[test]
fn settings_toggle_flips_value() {
    let mut state = State::default();
    assert!(!state.settings_checkbox_value(SettingsToggleKey::AutoReconnect));
    state.toggle_settings_checkbox(SettingsToggleKey::AutoReconnect);
    assert!(state.settings_checkbox_value(SettingsToggleKey::AutoReconnect));
}

#[test]
fn rdp_fields_include_resolution_selector() {
    let mut state = State::default();
    state.welcome_protocol = ProtocolMode::Rdp;
    let fields = state.current_field_ids();
    assert_eq!(fields.len(), 5);
}

#[test]
fn every_setting_reads_back() {
    let mut state = State::default();
    for key in all_toggles() {
        state.toggle_settings_checkbox(key);
    }
    for key in all_texts() {
        state.set_settings_text(key, format!("{:?}", key));
    }
    let written = save_settings(&state);
    assert_eq!(written.len(), 24);
    let data = load_settings(SettingsSource::Entries(written));
    let mut other = State::default();
    data.apply_to(&mut other);
    for key in all_toggles() {
        assert_eq!(other.settings_checkbox_value(key), state.settings_checkbox_value(key));
    }
    for key in all_texts() {
        assert_eq!(other.settings_text_value(key), format!("{:?}", key));
    }
}

#[test]
fn toggling_twice_changes_nothing() {
    let mut state = State::default();
    for key in all_toggles() {
        let before = state.settings_checkbox_value(key);
        state.toggle_settings_checkbox(key);
        state.toggle_settings_checkbox(key);
        assert_eq!(state.settings_checkbox_value(key), before);
    }
}

#[test]
fn names_tell_settings_apart() {
    for key in all_toggles() {
        assert_eq!(toggle_named(name_of_toggle(key)), Some(key));
        assert_eq!(text_named(name_of_toggle(key)), None);
    }
    for key in all_texts() {
        assert_eq!(text_named(name_of_text(key)), Some(key));
    }
    assert_eq!(name_of_toggle(SettingsToggleKey::RdpNla), "rdp_nla");
    assert_eq!(name_of_text(SettingsTextKey::SshKeepAliveInterval), "ssh_keepalive");
}

#[test]
fn unknown_names_are_passed_over() {
    let data = SettingsData::from_entries(&entries("{\"colour\": [1], \"rdp_nla\": false}"));
    assert!(!data.unwrap().rdp_nla);
}

#[test]
fn values_of_another_type_are_refused() {
    let read = SettingsData::from_entries(&entries("{\"rdp_nla\": \"no\"}"));
    assert!(matches!(read, Err(SettingsError::WrongType)));
    let read = SettingsData::from_entries(&entries("{\"common_timeout\": 30}"));
    assert!(matches!(read, Err(SettingsError::WrongType)));
    let data = load_settings(SettingsSource::Entries(entries("{\"rdp_nla\": \"no\"}")));
    assert!(data.rdp_nla);
}

#[test]
fn settings_stored_twice_are_refused() {
    let twice = || SettingsEntry { name: "rdp_nla".to_string(), value: SettingsValue::Flag(false) };
    let read = SettingsData::from_entries(&vec![twice(), twice()]);
    assert!(matches!(read, Err(SettingsError::Duplicate)));
}

#[test]
fn what_cannot_be_read_leaves_the_defaults() {
    for source in [SettingsSource::Missing, SettingsSource::Unreadable, SettingsSource::Malformed] {
        assert!(load_settings(source).to_entries().is_empty());
    }
}
