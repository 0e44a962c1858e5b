//! End-to-end protocol scenarios: handshake, events, errors, disconnect.

use esl::client::{check_auth_reply, expect_auth_request, Client};
use esl::event::EventHandler;
use esl::message::{Message, MsgError};
use esl::session::{frame_command, reader_step, writer_step, ReadAction, ReadEvent, SessionState,
                   WriteAction, WriteEvent};

#[test]
fn auth_success_handshake() {
    let greeting = b"Content-Type: auth/request\n\n";
    let (m, p) = Message::parse(greeting, 0).unwrap();
    assert_eq!(p, greeting.len());
    assert!(expect_auth_request(&m).is_ok());

    let c = Client::new("127.0.0.1:8021".to_string(), "ClueCon".to_string());
    assert_eq!(c.addr(), "127.0.0.1:8021");
    let cmd = c.auth_command();
    assert_eq!(cmd, b"auth ClueCon".to_vec());
    assert_eq!(frame_command(&cmd), b"auth ClueCon\n\n".to_vec());

    let reply = b"Content-Type: command/reply\nReply-Text: +OK accepted\n\n";
    let (r, _) = Message::parse(reply, 0).unwrap();
    assert!(check_auth_reply(&r).is_ok());

    let st = SessionState::new();
    assert!(!st.is_closed());
}

#[test]
fn auth_failure_is_auth_failed() {
    let greeting = b"Content-Type: auth/request\n\n";
    let (m, _) = Message::parse(greeting, 0).unwrap();
    assert!(expect_auth_request(&m).is_ok());

    let reply = b"Content-Type: command/reply\nReply-Text: -ERR invalid\n\n";
    let (r, _) = Message::parse(reply, 0).unwrap();
    assert!(matches!(check_auth_reply(&r), Err(MsgError::AuthFailed)));
}

#[test]
fn unexpected_greeting_fails_handshake() {
    let greeting = b"Content-Type: command/reply\nReply-Text: +OK\n\n";
    let (m, _) = Message::parse(greeting, 0).unwrap();
    assert!(matches!(
        expect_auth_request(&m),
        Err(MsgError::UnexpectedAuthHeader)
    ));
}

#[test]
fn json_event_reaches_subscribers() {
    let body = br#"{"Event-Name":"HEARTBEAT"}"#;
    let frame = format!(
        "Content-Type: text/event-json\nContent-Length: {}\n\n",
        body.len()
    );
    let mut bytes = frame.into_bytes();
    bytes.extend_from_slice(body);
    let (m, p) = Message::parse(&bytes, 0).unwrap();
    assert_eq!(p, bytes.len());
    let ed = m.event_data.as_ref().expect("event data");
    assert_eq!(ed.get_header(b"Event-Name"), b"HEARTBEAT".to_vec());
}

#[test]
fn url_encoded_plain_event_is_decoded_once() {
    let body = b"Event-Name%3A%20CHANNEL_CREATE%0AUnique-ID%3A%20abc";
    let frame = format!(
        "Content-Type: text/event-plain\nContent-Length: {}\n\n",
        body.len()
    );
    let mut bytes = frame.into_bytes();
    bytes.extend_from_slice(body);
    let (m, _) = Message::parse(&bytes, 0).unwrap();
    let ed = m.event_data.as_ref().expect("event data");
    assert_eq!(ed.get_header(b"Event-Name"), b"CHANNEL_CREATE".to_vec());
    assert_eq!(ed.get_header(b"Unique-ID"), b"abc".to_vec());
    assert_eq!(m.get_uuid(), Some(b"abc".to_vec()));
}

#[test]
fn api_error_body_is_surfaced_not_raised() {
    let bytes = b"Content-Type: api/response\nContent-Length: 20\n\n-ERR no such command";
    let (m, p) = Message::parse(bytes, 0).unwrap();
    assert_eq!(p, bytes.len());
    let ed = m.event_data.as_ref().expect("synthetic event data");
    let rt = ed.get_header(b"Reply-Text");
    assert!(rt.windows(4).any(|w| w == b"-ERR"));

    // The session stays open: a successfully parsed message is published.
    let mut st = SessionState::new();
    let act = reader_step(&mut st, ReadEvent::Frame(Ok(m)));
    assert!(matches!(act, ReadAction::Publish(_)));
    assert!(!st.is_closed());
}

#[test]
fn disconnect_notice_then_close() {
    let bytes = b"Content-Type: text/disconnect-notice\n\n";
    let (m, _) = Message::parse(bytes, 0).unwrap();
    assert!(m.event_data.is_none());

    let mut st = SessionState::new();
    // The notice itself is delivered.
    let act = reader_step(&mut st, ReadEvent::Frame(Ok(m)));
    assert!(matches!(act, ReadAction::Publish(_)));
    assert!(!st.is_closed());
    // The next read sees the peer close the connection.
    let act = reader_step(&mut st, ReadEvent::Frame(Err(MsgError::ConnectionClosed)));
    assert!(matches!(act, ReadAction::CloseAndExit));
    assert!(st.is_closed());
    // The writer observes the close signal on its next turn and exits.
    let mut wst = SessionState::new();
    let act = writer_step(&mut wst, WriteEvent::CloseSignal);
    assert!(matches!(act, WriteAction::Exit));
    assert!(wst.is_closed());
}

#[test]
fn read_failure_closes_session() {
    let mut st = SessionState::new();
    let act = reader_step(&mut st, ReadEvent::Frame(Err(MsgError::ReadFailed)));
    assert!(matches!(act, ReadAction::CloseAndExit));
    assert!(st.is_closed());
}

#[test]
fn recoverable_parse_error_continues() {
    let mut st = SessionState::new();
    let act = reader_step(&mut st, ReadEvent::Frame(Err(MsgError::BodyParseFailed)));
    assert!(matches!(act, ReadAction::Ignore));
    assert!(!st.is_closed());
    let act = reader_step(&mut st, ReadEvent::Frame(Err(MsgError::Incomplete)));
    assert!(matches!(act, ReadAction::Ignore));
    assert!(!st.is_closed());
}
