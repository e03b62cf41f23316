use mcagent::errors::AgentError;
use mcagent::propstore::{default_properties, PersistOutcome, PropEntry, ServerProperties};

fn store_from(pairs: &[(&str, &str)]) -> ServerProperties {
    let mut entries = Vec::new();
    for (k, v) in pairs {
        entries.push(PropEntry::new(k, v));
    }
    ServerProperties::new(entries)
}

#[test]
fn set_then_get_returns_the_written_value() {
    let mut props = store_from(&[]);
    for (key, value) in [
        ("motd", "hello there"),
        ("max-players", "64"),
        ("difficulty", "hard"),
        ("level-seed", "12345"),
    ] {
        assert!(props.set(key, value).is_ok());
        assert_eq!(props.get(key), Some(&value.to_string()));
    }
}

#[test]
fn set_overwrites_repeatedly() {
    let mut props = store_from(&[]);
    assert!(props.set("motd", "first").is_ok());
    assert!(props.set("motd", "second").is_ok());
    assert_eq!(props.get("motd"), Some(&"second".to_string()));
}

#[test]
fn set_unknown_key_fails_and_changes_nothing() {
    let mut props = store_from(&[("custom-key", "kept")]);
    let before_motd = props.get("motd").cloned();
    let r = props.set("no-such-key", "value");
    assert_eq!(r, Err(AgentError::PropertyNotFound));
    assert_eq!(props.get("no-such-key"), None);
    assert_eq!(props.get("motd").cloned(), before_motd);
    assert_eq!(props.get("custom-key"), Some(&"kept".to_string()));
}

#[test]
fn defaults_carry_the_stock_values() {
    let props = store_from(&[]);
    assert_eq!(props.get("allow-flight"), Some(&"false".to_string()));
    assert_eq!(props.get("difficulty"), Some(&"easy".to_string()));
    assert_eq!(props.get("gamemode"), Some(&"survival".to_string()));
    assert_eq!(props.get("server-port"), Some(&"25565".to_string()));
    assert_eq!(props.get("motd"), Some(&"A Minecraft Server".to_string()));
    assert_eq!(props.get("max-players"), Some(&"20".to_string()));
    assert_eq!(props.get("max-world-size"), Some(&"29999984".to_string()));
}

#[test]
fn file_entries_override_defaults() {
    let props = store_from(&[("motd", "custom message"), ("server-port", "7777")]);
    assert_eq!(props.get("motd"), Some(&"custom message".to_string()));
    assert_eq!(props.get("server-port"), Some(&"7777".to_string()));
    // untouched defaults keep their stock value
    assert_eq!(props.get("pvp"), Some(&"true".to_string()));
}

#[test]
fn later_file_duplicates_win() {
    let props = store_from(&[("motd", "first"), ("motd", "last")]);
    assert_eq!(props.get("motd"), Some(&"last".to_string()));
}

#[test]
fn file_entries_may_introduce_new_keys() {
    let props = store_from(&[("plugin-extra", "on")]);
    assert_eq!(props.get("plugin-extra"), Some(&"on".to_string()));
}

#[test]
fn update_replaces_the_snapshot_wholly() {
    let mut props = store_from(&[]);
    props.update(vec![PropEntry::new("only-key", "only-value")]);
    assert_eq!(props.get("only-key"), Some(&"only-value".to_string()));
    assert_eq!(props.get("motd"), None);
}

#[test]
fn snapshot_entries_reads_back_the_mapping() {
    let mut props = store_from(&[]);
    props.update(vec![PropEntry::new("a", "1"), PropEntry::new("b", "2")]);
    let entries = props.snapshot_entries();
    assert_eq!(entries.len(), 2);
    assert_eq!(entries[0].key, "a");
    assert_eq!(entries[0].value, "1");
    assert_eq!(entries[1].key, "b");
    assert_eq!(entries[1].value, "2");
}

#[test]
fn default_properties_has_the_full_table() {
    let defaults = default_properties();
    assert_eq!(defaults.len(), 57);
    assert!(defaults.iter().any(|e| e.key == "enable-jmx-monitoring" && e.value == "false"));
    assert!(defaults.iter().any(|e| e.key == "spawn-protection" && e.value == "16"));
}

#[test]
fn a_failed_persist_surfaces_and_keeps_the_pre_write_value() {
    let mut props = store_from(&[]);
    assert!(props.set("motd", "before").is_ok());
    let r = props.set_persisted("motd", "after", PersistOutcome::WriteError);
    assert_eq!(r, Err(AgentError::PropertyWriteFailed));
    assert_eq!(props.get("motd"), Some(&"before".to_string()));
    // unknown keys are still rejected, before any write is attempted
    assert_eq!(
        props.set_persisted("no-such-key", "x", PersistOutcome::WriteError),
        Err(AgentError::PropertyNotFound)
    );
    // a successful persist behaves exactly like set
    assert!(props.set_persisted("motd", "after", PersistOutcome::Persisted).is_ok());
    assert_eq!(props.get("motd"), Some(&"after".to_string()));
}
