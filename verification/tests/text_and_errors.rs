use mcagent::errors::AgentError;
use mcagent::screen::SettingScreen;
use mcagent::text::{parse_bool, parse_u32, str_eq, u32_to_string, u64_to_string};

#[test]
fn str_eq_compares_by_contents() {
    assert!(str_eq("", ""));
    assert!(str_eq("abc", "abc"));
    assert!(!str_eq("abc", "abd"));
    assert!(!str_eq("abc", "ab"));
    assert!(str_eq("héllo", "héllo"));
    assert!(!str_eq("héllo", "hallo"));
}

#[test]
fn booleans_parse_strictly() {
    assert_eq!(parse_bool("true"), Some(true));
    assert_eq!(parse_bool("false"), Some(false));
    assert_eq!(parse_bool("True"), None);
    assert_eq!(parse_bool(""), None);
    assert_eq!(parse_bool("1"), None);
}

#[test]
fn decimal_rendering_is_exact() {
    assert_eq!(u32_to_string(0), "0");
    assert_eq!(u32_to_string(7), "7");
    assert_eq!(u32_to_string(25565), "25565");
    assert_eq!(u32_to_string(u32::MAX), "4294967295");
    assert_eq!(u64_to_string(u64::MAX), "18446744073709551615");
}

#[test]
fn decimal_parsing_is_exact_and_bounded() {
    assert_eq!(parse_u32("0"), Some(0));
    assert_eq!(parse_u32("25565"), Some(25565));
    assert_eq!(parse_u32("007"), Some(7));
    assert_eq!(parse_u32("4294967295"), Some(u32::MAX));
    assert_eq!(parse_u32("4294967296"), None);
    assert_eq!(parse_u32(""), None);
    assert_eq!(parse_u32("12a"), None);
    assert_eq!(parse_u32("-1"), None);
    assert_eq!(parse_u32("99999999999999999999"), None);
}

#[test]
fn rendering_then_parsing_round_trips() {
    for n in [0u32, 1, 9, 10, 99, 100, 25565, u32::MAX] {
        let text = u32_to_string(n);
        assert_eq!(parse_u32(&text), Some(n));
    }
}

#[test]
fn screens_round_trip_through_their_tags() {
    for screen in [
        SettingScreen::WorldGeneration,
        SettingScreen::Gameplay,
        SettingScreen::Admin,
    ] {
        assert_eq!(SettingScreen::from_tag(screen.tag()), Some(screen));
    }
    assert_eq!(SettingScreen::from_tag("elsewhere"), None);
}

#[test]
fn every_error_describes_itself() {
    let cases = [
        (AgentError::UnknownCorrelationId, "unknown correlation identifier"),
        (AgentError::DuplicateCorrelationId, "correlation identifier already registered"),
        (AgentError::ProcessAlreadyRunning, "process already running"),
        (AgentError::ProcessNotRunning, "process not running"),
        (AgentError::ProcessSpawnFailed, "process spawn failed"),
        (AgentError::ProcessUnresponsive, "process unresponsive"),
        (AgentError::PropertyNotFound, "property not found"),
        (AgentError::PropertyStoreUnavailable, "property store unavailable"),
        (AgentError::PropertyWriteFailed, "property write failed"),
        (AgentError::InvalidPropertyValue, "invalid property value"),
        (AgentError::UpstreamQueryFailed, "upstream query failed"),
        (AgentError::IconDecodeFailed, "icon decode failed"),
        (AgentError::MalformedMessage, "malformed message"),
    ];
    for (err, text) in cases {
        assert_eq!(err.describe(), text);
    }
}
