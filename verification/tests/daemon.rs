use rclc::client_daemon::{
    fit_serialize_buffer, frame_line, test_phrase, ClientToDaemonMsg, DaemonToClientMsg, PacketParseError,
    LINE_END, SERIALIZE_BUFFER_LEN,
};
use rclc::daemon::{handle_stream_event, DiscoveryServerConfig, StreamEvent, StreamStep};

fn conf() -> DiscoveryServerConfig {
    DiscoveryServerConfig { url: "http://127.0.0.1:8000".to_string() }
}

#[test]
fn discovery_urls() {
    assert_eq!(conf().root_url(), "http://127.0.0.1:8000");
    assert_eq!(conf().info_url(), "http://127.0.0.1:8000/info");
    assert_eq!(conf().discover_url(), "http://127.0.0.1:8000/discover");
}

#[test]
fn decoded_line_is_answered() {
    match handle_stream_event(StreamEvent::Line(Ok(ClientToDaemonMsg::Send("hi".to_string())))) {
        StreamStep::Reply { received: ClientToDaemonMsg::Send(s), malformed, reply: DaemonToClientMsg::Test(t) } => {
            assert_eq!(s, "hi");
            assert!(!malformed);
            assert_eq!(t, "The quick brown fox jumped over the lazy dogs");
        }
        other => panic!("unexpected {:?}", other),
    }
}

#[test]
fn malformed_line_becomes_unknown() {
    match handle_stream_event(StreamEvent::Line(Err(PacketParseError))) {
        StreamStep::Reply { received: ClientToDaemonMsg::Unknown, malformed, reply: DaemonToClientMsg::Test(t) } => {
            assert!(malformed);
            assert_eq!(t, test_phrase());
        }
        other => panic!("unexpected {:?}", other),
    }
}

#[test]
fn read_failures_stop() {
    assert!(matches!(
        handle_stream_event(StreamEvent::ReadFailed { broken_pipe: true }),
        StreamStep::Stop { notify: false }
    ));
    assert!(matches!(
        handle_stream_event(StreamEvent::ReadFailed { broken_pipe: false }),
        StreamStep::Stop { notify: true }
    ));
}

#[test]
fn framing_appends_line_end() {
    assert_eq!(frame_line(vec![1, 2, 3]), vec![1, 2, 3, LINE_END]);
    assert_eq!(frame_line(vec![]), vec![10]);
}

#[test]
fn serialize_buffer_limit() {
    let fits = vec![7u8; SERIALIZE_BUFFER_LEN];
    assert_eq!(fit_serialize_buffer(fits.clone()), Some(fits));
    assert_eq!(fit_serialize_buffer(vec![7u8; SERIALIZE_BUFFER_LEN + 1]), None);
    assert_eq!(fit_serialize_buffer(vec![]), Some(vec![]));
}

#[test]
fn packet_parse_error_text() {
    assert_eq!(PacketParseError.description(), "Packet parse error occured");
}
