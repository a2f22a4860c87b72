use nanobot_desktop::kind::{parse_kind, ProcessKind, StreamKind};

#[test]
fn roles_have_their_names() {
    assert_eq!(ProcessKind::Agent.as_str(), "agent");
    assert_eq!(ProcessKind::Gateway.as_str(), "gateway");
    assert_eq!(StreamKind::Stdout.as_str(), "stdout");
    assert_eq!(StreamKind::Stderr.as_str(), "stderr");
}

#[test]
fn names_address_their_roles() {
    assert_eq!(ProcessKind::parse("agent"), Some(ProcessKind::Agent));
    assert_eq!(ProcessKind::parse("gateway"), Some(ProcessKind::Gateway));
    for kind in [ProcessKind::Agent, ProcessKind::Gateway] {
        assert_eq!(ProcessKind::parse(kind.as_str()), Some(kind));
    }
}

#[test]
fn other_names_address_nothing() {
    for name in ["", "Agent", "agent ", "gate", "gateways", "worker"] {
        assert_eq!(ProcessKind::parse(name), None, "{name:?}");
        assert_eq!(parse_kind(name), Err("unknown process".to_string()), "{name:?}");
    }
}

#[test]
fn parse_kind_accepts_both_roles() {
    assert_eq!(parse_kind("agent"), Ok(ProcessKind::Agent));
    assert_eq!(parse_kind("gateway"), Ok(ProcessKind::Gateway));
}

#[test]
fn roles_have_their_patterns_and_messages() {
    assert_eq!(ProcessKind::Agent.match_pattern(), "nanobot agent");
    assert_eq!(ProcessKind::Gateway.match_pattern(), "nanobot gateway");
    assert_eq!(ProcessKind::Agent.started_text(), "Agent started");
    assert_eq!(ProcessKind::Gateway.started_text(), "Gateway started");
    assert_eq!(ProcessKind::Agent.failure_text(), "Failed to start agent: ");
    assert_eq!(ProcessKind::Gateway.failure_text(), "Failed to start gateway: ");
}

#[test]
fn channels_are_known_by_their_names() {
    assert_eq!(StreamKind::parse("stdout"), Some(StreamKind::Stdout));
    assert_eq!(StreamKind::parse("stderr"), Some(StreamKind::Stderr));
    assert_eq!(StreamKind::parse("stdin"), None);
    assert_eq!(StreamKind::parse(""), None);
}
