use mcagent::dispatch::{begin_edit_request, begin_props_request, begin_query_request,
    handle_server_action, route_action, AgentStep, DispatchOutcome};
use mcagent::messages::{AgentActions, OneshotResponses, ServerActions};
use mcagent::process::ServerProcess;
use mcagent::properties::property;
use mcagent::propstore::PropEntry;
use mcagent::query_options::{QueryOptions, QuerySend};
use mcagent::registry::CorrelationRegistry;
use mcagent::errors::AgentError;
use mcagent::propstore::default_properties;

#[test]
fn every_command_routes_to_its_step() {
    assert!(matches!(route_action(AgentActions::sv_start), AgentStep::StartProcess));
    assert!(matches!(route_action(AgentActions::sv_stop), AgentStep::StopProcess));
    match route_action(AgentActions::message("hi".to_string())) {
        AgentStep::Chat(t) => assert_eq!(t, "hi"),
        other => panic!("wrong step: {:?}", other),
    }
    match route_action(AgentActions::request_props(42)) {
        AgentStep::SendProps(id) => assert_eq!(id, 42),
        other => panic!("wrong step: {:?}", other),
    }
    match route_action(AgentActions::edit_prop(7, property::max_players(3))) {
        AgentStep::EditProp(id, property::max_players(n)) => {
            assert_eq!(id, 7);
            assert_eq!(n, 3);
        },
        other => panic!("wrong step: {:?}", other),
    }
    match route_action(AgentActions::StartQuery(9, QueryOptions::new(&Vec::new()), 11, 12)) {
        AgentStep::BeginQuery(id, _, message_id, channel_id) => {
            assert_eq!(id, 9);
            assert_eq!(message_id, 11);
            assert_eq!(channel_id, 12);
        },
        other => panic!("wrong step: {:?}", other),
    }
}

#[test]
fn responses_arriving_out_of_order_wake_their_own_originators() {
    let mut reg = CorrelationRegistry::new();
    let a: u128 = 100;
    let b: u128 = 200;
    assert!(reg.register(a, 1).is_ok());
    assert!(reg.register(b, 2).is_ok());
    // B's response arrives first
    let first = handle_server_action(
        &mut reg,
        ServerActions::PropsResponse(b, vec![PropEntry::new("motd", "for b")]),
    );
    match first {
        DispatchOutcome::Deliver(ticket, OneshotResponses::PropsResponse(entries)) => {
            assert_eq!(ticket, 2);
            assert_eq!(entries[0].value, "for b");
        },
        other => panic!("wrong outcome: {:?}", other),
    }
    // then A's
    let second = handle_server_action(
        &mut reg,
        ServerActions::PropsResponse(a, vec![PropEntry::new("motd", "for a")]),
    );
    match second {
        DispatchOutcome::Deliver(ticket, OneshotResponses::PropsResponse(entries)) => {
            assert_eq!(ticket, 1);
            assert_eq!(entries[0].value, "for a");
        },
        other => panic!("wrong outcome: {:?}", other),
    }
    assert_eq!(reg.pending_count(), 0);
}

#[test]
fn an_orphan_response_is_dropped_and_reported() {
    let mut reg = CorrelationRegistry::new();
    assert!(reg.register(1, 10).is_ok());
    let outcome = handle_server_action(&mut reg, ServerActions::PropsResponse(999, Vec::new()));
    match outcome {
        DispatchOutcome::Orphan(id) => assert_eq!(id, 999),
        other => panic!("wrong outcome: {:?}", other),
    }
    assert_eq!(reg.pending_count(), 1);
}

#[test]
fn a_query_response_carries_its_payload_to_the_waiter() {
    let mut reg = CorrelationRegistry::new();
    assert!(reg.register(5, 55).is_ok());
    let outcome = handle_server_action(
        &mut reg,
        ServerActions::QueryResponse(5, "desc".to_string(), vec![1, 2], QuerySend::default()),
    );
    match outcome {
        DispatchOutcome::Deliver(ticket, OneshotResponses::QueryResponse(d, icon, _)) => {
            assert_eq!(ticket, 55);
            assert_eq!(d, "desc");
            assert_eq!(icon, vec![1, 2]);
        },
        other => panic!("wrong outcome: {:?}", other),
    }
}

#[test]
fn uncorrelated_messages_pass_through_untouched() {
    let mut reg = CorrelationRegistry::new();
    let update = handle_server_action(
        &mut reg,
        ServerActions::props_update(vec![PropEntry::new("a", "1")]),
    );
    match update {
        DispatchOutcome::PropertiesChanged(entries) => assert_eq!(entries[0].key, "a"),
        other => panic!("wrong outcome: {:?}", other),
    }
    let monitor = handle_server_action(
        &mut reg,
        ServerActions::UpdateQuery(3, 4, QuerySend::default()),
    );
    match monitor {
        DispatchOutcome::MonitorUpdate(message_id, channel_id, _) => {
            assert_eq!(message_id, 3);
            assert_eq!(channel_id, 4);
        },
        other => panic!("wrong outcome: {:?}", other),
    }
}

#[test]
fn no_tick_is_due_after_a_shutdown_even_if_one_was_pending() {
    let mut proc = ServerProcess::default();
    proc.begin_refresh();
    assert!(proc.refresh_due());
    proc.shutdown_query();
    assert!(!proc.refresh_due());
    // firing the cancellation twice has no additional effect
    proc.shutdown_query();
    assert!(!proc.refresh_due());
}

#[test]
fn start_query_reads_the_probe_port_from_the_snapshot() {
    let mut proc = ServerProcess::default();
    assert!(matches!(
        proc.start_query(1, 2, QueryOptions::new(&Vec::new())),
        Err(AgentError::PropertyStoreUnavailable)
    ));
    proc.update_properties(Some(default_properties()));
    let handler = proc.start_query(1, 2, QueryOptions::new(&Vec::new())).unwrap();
    assert_eq!(handler.port, 25565);
    assert_eq!(handler.message_id, 1);
    assert_eq!(handler.channel_id, 2);
    // an unparseable port is rejected
    assert!(proc.set("server-port", "not-a-number").is_ok());
    assert!(matches!(
        proc.start_query(1, 2, QueryOptions::new(&Vec::new())),
        Err(AgentError::InvalidPropertyValue)
    ));
}

#[test]
fn correlated_requests_echo_their_identifier() {
    let mut reg = CorrelationRegistry::new();
    let (id, action) = begin_props_request(&mut reg, 9).unwrap();
    match action {
        AgentActions::request_props(i) => assert_eq!(i, id),
        other => panic!("wrong command: {:?}", other),
    }
    let outcome = handle_server_action(&mut reg, ServerActions::PropsResponse(id, Vec::new()));
    match outcome {
        DispatchOutcome::Deliver(ticket, _) => assert_eq!(ticket, 9),
        other => panic!("wrong outcome: {:?}", other),
    }
    let (id2, action2) = begin_edit_request(&mut reg, 3, property::pvp).unwrap();
    match action2 {
        AgentActions::edit_prop(i, property::pvp) => assert_eq!(i, id2),
        other => panic!("wrong command: {:?}", other),
    }
    let (id3, action3) = begin_query_request(&mut reg, 4, QueryOptions::new(&Vec::new()), 5, 6).unwrap();
    match action3 {
        AgentActions::StartQuery(i, _, message_id, channel_id) => {
            assert_eq!(i, id3);
            assert_eq!(message_id, 5);
            assert_eq!(channel_id, 6);
        },
        other => panic!("wrong command: {:?}", other),
    }
    assert_eq!(reg.pending_count(), 2);
}
