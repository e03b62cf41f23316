use mcagent::errors::AgentError;
use mcagent::query::{decode_icon, QueryHandler, ServerStatus};
use mcagent::query_options::{QueryOptions, QuerySend};

fn favicon_for(bytes: &[u8]) -> String {
    let encoded = base64::Engine::encode(&base64::engine::general_purpose::STANDARD, bytes);
    format!("data:image/png;base64,{}", encoded)
}

fn status_with_everything() -> ServerStatus {
    ServerStatus {
        version: "1.21.4".to_string(),
        players_online: 3,
        players_max: 20,
        player_sample: Some(vec!["alice".to_string(), "bob".to_string()]),
        description: "A test server".to_string(),
        favicon: Some(favicon_for(&[1, 2, 3, 4])),
        map: Some("overworld".to_string()),
        gamemode: Some("Survival".to_string()),
        software: Some("Paper".to_string()),
        plugins: Some(vec!["essentials".to_string()]),
        mods: Some(vec!["create".to_string()]),
    }
}

fn options_none() -> QueryOptions {
    QueryOptions::new(&Vec::new())
}

#[test]
fn requested_fields_appear_and_unrequested_fields_stay_absent() {
    // requested: version and player count; the status also carries a
    // player list, which was not requested and must stay absent
    let handler = QueryHandler::new(
        25565,
        1,
        2,
        QueryOptions::new(&vec!["version".to_string(), "player count".to_string()]),
    );
    let status = status_with_everything();
    let (description, icon, reply) = handler.respond(&status).unwrap();
    assert_eq!(description, "A test server");
    assert_eq!(icon, vec![1, 2, 3, 4]);
    assert_eq!(reply.version(), Some(&"1.21.4".to_string()));
    assert_eq!(reply.player_count(), Some(&"3/20".to_string()));
    assert_eq!(reply.player_list(), None);
    assert_eq!(reply.map(), None);
    assert_eq!(reply.gamemode(), None);
    assert_eq!(reply.software(), None);
    assert_eq!(reply.plugins(), None);
    assert_eq!(reply.mods(), None);
}

#[test]
fn a_requested_field_the_status_lacks_is_omitted_not_an_error() {
    let handler = QueryHandler::new(
        25565,
        1,
        2,
        QueryOptions::new(&vec!["player list".to_string()]),
    );
    let mut status = status_with_everything();
    status.player_sample = None;
    let (_, _, reply) = handler.respond(&status).unwrap();
    assert_eq!(reply.player_list(), None);
}

#[test]
fn requested_optional_fields_the_status_lacks_are_omitted() {
    let handler = QueryHandler::new(
        25565,
        1,
        2,
        QueryOptions::new(&vec![
            "map".to_string(),
            "gamemode".to_string(),
            "software".to_string(),
            "plugins".to_string(),
            "mods".to_string(),
        ]),
    );
    let mut status = status_with_everything();
    status.map = None;
    status.gamemode = None;
    status.software = None;
    status.plugins = None;
    status.mods = None;
    // the probe still succeeds; the absent fields are simply left out
    let (_, _, reply) = handler.respond(&status).unwrap();
    assert_eq!(reply.map(), None);
    assert_eq!(reply.gamemode(), None);
    assert_eq!(reply.software(), None);
    assert_eq!(reply.plugins(), None);
    assert_eq!(reply.mods(), None);
}

#[test]
fn requested_optional_fields_the_status_supplies_carry_its_values() {
    let handler = QueryHandler::new(
        25565,
        1,
        2,
        QueryOptions::new(&vec![
            "map".to_string(),
            "gamemode".to_string(),
            "software".to_string(),
            "plugins".to_string(),
            "mods".to_string(),
        ]),
    );
    let status = status_with_everything();
    let (_, _, reply) = handler.respond(&status).unwrap();
    assert_eq!(reply.map(), Some(&"overworld".to_string()));
    assert_eq!(reply.gamemode(), Some(&"Survival".to_string()));
    assert_eq!(reply.software(), Some(&"Paper".to_string()));
    assert_eq!(reply.plugins(), Some(&vec!["essentials".to_string()]));
    assert_eq!(reply.mods(), Some(&vec!["create".to_string()]));
}

#[test]
fn the_player_list_carries_the_sample_names() {
    let handler = QueryHandler::new(
        25565,
        1,
        2,
        QueryOptions::new(&vec!["player list".to_string()]),
    );
    let status = status_with_everything();
    let (_, _, reply) = handler.respond(&status).unwrap();
    assert_eq!(
        reply.player_list(),
        Some(&vec!["alice".to_string(), "bob".to_string()])
    );
}

#[test]
fn a_missing_icon_fails_the_response() {
    let handler = QueryHandler::new(25565, 1, 2, options_none());
    let mut status = status_with_everything();
    status.favicon = None;
    assert!(matches!(
        handler.respond(&status),
        Err(AgentError::IconDecodeFailed)
    ));
}

#[test]
fn an_icon_without_the_data_uri_prefix_fails() {
    let mut status = status_with_everything();
    status.favicon = Some("AQIDBA==".to_string());
    assert_eq!(decode_icon(&status.favicon), Err(AgentError::IconDecodeFailed));
}

#[test]
fn an_icon_with_malformed_base64_fails() {
    let favicon = Some("data:image/png;base64,!!not-base64!!".to_string());
    assert_eq!(decode_icon(&favicon), Err(AgentError::IconDecodeFailed));
}

#[test]
fn a_well_formed_icon_decodes_to_its_bytes() {
    let favicon = Some(favicon_for(&[9, 8, 7]));
    assert_eq!(decode_icon(&favicon), Ok(vec![9, 8, 7]));
}

#[test]
fn a_probe_that_could_not_complete_is_an_upstream_failure() {
    let handler = QueryHandler::new(25565, 1, 2, options_none());
    assert!(matches!(
        handler.probe_reply(None),
        Err(AgentError::UpstreamQueryFailed)
    ));
    let status = status_with_everything();
    assert!(handler.probe_reply(Some(&status)).is_ok());
}

#[test]
fn query_options_parse_their_field_labels() {
    let opts = QueryOptions::new(&vec![
        "version".to_string(),
        "player list".to_string(),
        "mods".to_string(),
        "unrelated".to_string(),
    ]);
    assert!(opts.version);
    assert!(!opts.player_count);
    assert!(opts.player_list);
    assert!(!opts.description);
    assert!(!opts.map);
    assert!(!opts.gamemode);
    assert!(!opts.software);
    assert!(!opts.plugins);
    assert!(opts.mods);
}

#[test]
fn query_send_setters_and_getters_round_trip() {
    let mut send = QuerySend::default();
    assert_eq!(send.version(), None);
    send.set_version("1.0".to_string());
    send.set_player_count("2/10".to_string());
    send.set_player_list(vec!["p".to_string()]);
    send.set_description("d".to_string());
    send.set_map(Some("m".to_string()));
    send.set_gamemode(Some("g".to_string()));
    send.set_software(Some("s".to_string()));
    send.set_plugins(Some(vec!["pl".to_string()]));
    send.set_mods(None);
    assert_eq!(send.version(), Some(&"1.0".to_string()));
    assert_eq!(send.player_count(), Some(&"2/10".to_string()));
    assert_eq!(send.player_list(), Some(&vec!["p".to_string()]));
    assert_eq!(send.description(), Some(&"d".to_string()));
    assert_eq!(send.map(), Some(&"m".to_string()));
    assert_eq!(send.gamemode(), Some(&"g".to_string()));
    assert_eq!(send.software(), Some(&"s".to_string()));
    assert_eq!(send.plugins(), Some(&vec!["pl".to_string()]));
    assert_eq!(send.mods(), None);
}
