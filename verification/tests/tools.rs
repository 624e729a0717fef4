use pza_plugin_std::echo_server::{greeting, session_step, ServerConfig, SessionEnd, SessionStep};
use pza_plugin_std::serial_stream::stream::ReadOutcome;
use pza_plugin_std::stream_viewer::{payload_text, rx_topic_name, topic_kind, tx_topic_name, TopicKind};

fn step(bytes: &[u8]) -> SessionStep {
    let mut buffer = [0u8; 1024];
    buffer[..bytes.len()].copy_from_slice(bytes);
    session_step(&ReadOutcome::Received(bytes.len()), &buffer)
}

#[test]
fn echo_server_echoes_trimmed_message() {
    match step(b"  hello\r\n") {
        SessionStep::Reply(r) => assert_eq!(r, "echo : hello"),
        SessionStep::End(_) => panic!("expected a reply"),
    }
}

#[test]
fn echo_server_replaces_invalid_utf8() {
    match step(&[b'a', 0xff, b'b']) {
        SessionStep::Reply(r) => assert_eq!(r, "echo : a\u{fffd}b"),
        SessionStep::End(_) => panic!("expected a reply"),
    }
}

#[test]
fn echo_server_ends_on_reboot() {
    assert!(matches!(step(b"reboot"), SessionStep::End(SessionEnd::RebootRequested)));
    assert!(matches!(step(b" reboot \n"), SessionStep::End(SessionEnd::RebootRequested)));
    assert!(matches!(step(b"reboot now"), SessionStep::Reply(_)));
}

#[test]
fn echo_server_ends_on_close_or_error() {
    let buffer = [0u8; 8];
    assert!(matches!(
        session_step(&ReadOutcome::Received(0), &buffer),
        SessionStep::End(SessionEnd::Disconnected)
    ));
    assert!(matches!(
        session_step(&ReadOutcome::Failed("reset".to_string()), &buffer),
        SessionStep::End(SessionEnd::ReadFailed)
    ));
}

#[test]
fn echo_server_address_and_greeting() {
    let config = ServerConfig { ip: "127.0.0.1".to_string(), port: 12345 };
    assert_eq!(config.address(), "127.0.0.1:12345");
    let config = ServerConfig { ip: "0.0.0.0".to_string(), port: 0 };
    assert_eq!(config.address(), "0.0.0.0:0");
    assert_eq!(greeting(), "reboot succeeded");
}

#[test]
fn viewer_classifies_topics() {
    assert_eq!(rx_topic_name(), "pza/serial plugin/serial-stream/RX/att");
    assert_eq!(tx_topic_name(), "pza/serial plugin/serial-stream/TX/cmd");
    assert_eq!(topic_kind("pza/serial plugin/serial-stream/RX/att"), TopicKind::Rx);
    assert_eq!(topic_kind("pza/serial plugin/serial-stream/TX/cmd"), TopicKind::Tx);
    assert_eq!(topic_kind("pza/other"), TopicKind::Other);
}

#[test]
fn viewer_escapes_payload() {
    assert_eq!(payload_text(b"echo : hi\n"), "echo : hi\\n");
    assert_eq!(payload_text(&[0xde, 0xad]), "\\xde\\xad");
    assert_eq!(payload_text(b""), "");
}
