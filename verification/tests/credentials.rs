//! The credential lifecycle: reuse of an initialized record, the key-entry
//! decision, and the round trip of an entered key.

use mixtral_cli::api::config::{ConfigFile, KeyResolution};

#[test]
fn initialized_record_resolves_without_entry() {
    let record = ConfigFile { api_key: "sk-abc".to_string(), api_key_initialized: true };
    match record.check_config(false) {
        KeyResolution::Ready(key) => assert_eq!(key, "sk-abc"),
        KeyResolution::EntryNeeded => panic!("no entry flow expected"),
    }
}

#[test]
fn resolution_is_idempotent() {
    let record = ConfigFile { api_key: "sk-abc".to_string(), api_key_initialized: true };
    let first = record.check_config(false);
    let second = record.check_config(false);
    match (first, second) {
        (KeyResolution::Ready(k1), KeyResolution::Ready(k2)) => {
            assert_eq!(k1, k2);
            assert_eq!(k1, "sk-abc");
        }
        _ => panic!("both resolutions must reuse the stored key"),
    }
}

#[test]
fn reset_forces_entry_even_when_initialized() {
    let record = ConfigFile { api_key: "sk-abc".to_string(), api_key_initialized: true };
    assert!(matches!(record.check_config(true), KeyResolution::EntryNeeded));
}

#[test]
fn uninitialized_record_needs_entry() {
    let record = ConfigFile::default();
    assert!(matches!(record.check_config(false), KeyResolution::EntryNeeded));
}

#[test]
fn entry_flow_builds_initialized_record() {
    let record = ConfigFile::new("sk-new".to_string());
    assert_eq!(record.api_key, "sk-new");
    assert!(record.api_key_initialized);
}

#[test]
fn entered_key_round_trips() {
    let written = ConfigFile::new("sk-abc".to_string());
    let reloaded = written.clone();
    assert_eq!(reloaded.api_key, "sk-abc");
    assert!(reloaded.api_key_initialized);
    match reloaded.check_config(false) {
        KeyResolution::Ready(key) => assert_eq!(key, "sk-abc"),
        KeyResolution::EntryNeeded => panic!("a reloaded record must resolve without entry"),
    }
}

#[test]
fn default_record_is_empty_and_uninitialized() {
    let record = ConfigFile::default();
    assert_eq!(record.api_key, "");
    assert!(!record.api_key_initialized);
}

#[test]
fn empty_entered_key_is_accepted() {
    // The entry flow does not validate emptiness; an empty key only fails
    // later, at the network layer.
    let record = ConfigFile::new(String::new());
    assert_eq!(record.api_key, "");
    assert!(record.api_key_initialized);
}
