use mcagent::errors::AgentError;
use mcagent::process::{ServerProcess, SignalOutcome, SpawnOutcome};
use mcagent::propstore::{default_properties, PropEntry};

#[test]
fn start_twice_yields_success_then_already_running() {
    let mut proc = ServerProcess::default();
    assert!(proc.start_server(SpawnOutcome::Launched, None).is_ok());
    assert!(proc.running());
    let again = proc.start_server(SpawnOutcome::Launched, None);
    assert_eq!(again, Err(AgentError::ProcessAlreadyRunning));
    assert!(proc.running());
}

#[test]
fn stop_when_stopped_fails_with_not_running() {
    let mut proc = ServerProcess::default();
    let r = proc.stop_server(SignalOutcome::Delivered, None);
    assert_eq!(r, Err(AgentError::ProcessNotRunning));
    assert!(!proc.running());
}

#[test]
fn spawn_failure_leaves_the_process_stopped() {
    let mut proc = ServerProcess::default();
    let r = proc.start_server(SpawnOutcome::SpawnError, None);
    assert_eq!(r, Err(AgentError::ProcessSpawnFailed));
    assert!(!proc.running());
    // and the start can be retried
    assert!(proc.start_server(SpawnOutcome::Launched, None).is_ok());
}

#[test]
fn unresponsive_stop_keeps_the_process_running_for_a_retry() {
    let mut proc = ServerProcess::default();
    assert!(proc.start_server(SpawnOutcome::Launched, None).is_ok());
    let r = proc.stop_server(SignalOutcome::StreamUnavailable, None);
    assert_eq!(r, Err(AgentError::ProcessUnresponsive));
    assert!(proc.running());
    assert!(proc.stop_server(SignalOutcome::Delivered, None).is_ok());
    assert!(!proc.running());
}

#[test]
fn start_and_stop_refresh_the_snapshot() {
    let mut proc = ServerProcess::default();
    assert_eq!(
        proc.get_property("motd"),
        Err(AgentError::PropertyStoreUnavailable)
    );
    assert!(proc
        .start_server(SpawnOutcome::Launched, Some(default_properties()))
        .is_ok());
    assert_eq!(proc.get_property("motd"), Ok("A Minecraft Server"));
    assert!(proc
        .stop_server(
            SignalOutcome::Delivered,
            Some(vec![PropEntry::new("motd", "rewritten on shutdown")])
        )
        .is_ok());
    assert_eq!(proc.get_property("motd"), Ok("rewritten on shutdown"));
}

#[test]
fn update_properties_without_a_file_drops_the_store() {
    let mut proc = ServerProcess::default();
    proc.update_properties(Some(default_properties()));
    assert!(proc.get_property("motd").is_ok());
    proc.update_properties(None);
    assert_eq!(
        proc.get_property("motd"),
        Err(AgentError::PropertyStoreUnavailable)
    );
}

#[test]
fn set_through_the_controller_needs_a_store_and_a_known_key() {
    let mut proc = ServerProcess::default();
    assert_eq!(
        proc.set("motd", "x"),
        Err(AgentError::PropertyStoreUnavailable)
    );
    proc.update_properties(Some(default_properties()));
    assert_eq!(proc.set("no-such-key", "x"), Err(AgentError::PropertyNotFound));
    assert!(proc.set("motd", "x").is_ok());
    assert_eq!(proc.get_property("motd"), Ok("x"));
}

#[test]
fn builders_set_the_launch_configuration() {
    let proc = ServerProcess::default()
        .xms(2048)
        .xmx(4096)
        .dir("/srv/game/".to_string())
        .jar("game.jar".to_string());
    assert!(!proc.running());
    assert_eq!(proc.working_dir(), "/srv/game/");
    assert_eq!(
        proc.launch_args(),
        vec!["-Xmx4096M", "-Xms2048M", "-jar", "game.jar", "nogui"]
    );
}

#[test]
fn the_stock_launch_configuration_is_used_unchanged() {
    let proc = ServerProcess::default();
    assert_eq!(proc.working_dir(), "./");
    assert_eq!(
        proc.launch_args(),
        vec!["-Xmx1024M", "-Xms1024M", "-jar", "server.jar", "nogui"]
    );
}

#[test]
fn snapshot_entries_requires_a_store() {
    let mut proc = ServerProcess::default();
    assert!(proc.snapshot_entries().is_err());
    // the first load seeds the snapshot over the stock defaults
    proc.update_properties(Some(vec![PropEntry::new("a", "1")]));
    let entries = proc.snapshot_entries().unwrap();
    assert_eq!(entries.len(), 58);
    assert!(entries.iter().any(|e| e.key == "a" && e.value == "1"));
    // a later fresh read replaces the snapshot wholly
    proc.update_properties(Some(vec![PropEntry::new("a", "2")]));
    let entries = proc.snapshot_entries().unwrap();
    assert_eq!(entries.len(), 1);
    assert_eq!(entries[0].key, "a");
    assert_eq!(entries[0].value, "2");
}
