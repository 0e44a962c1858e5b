//! The session decision core: framing, the latch, reader and writer steps,
//! and the wire form of client commands.

use esl::client::{api_command, bigapi_command, events_command, filter_command, reply_is_ok,
                  sendmsg_command};
use esl::message::{FormatType, Message, MsgError};
use esl::session::{frame_command, reader_step, writer_step, ReadAction, ReadEvent, SessionState,
                   WriteAction, WriteEvent};

#[test]
fn send_frames_are_trimmed_and_terminated() {
    assert_eq!(frame_command(b"api status"), b"api status\n\n".to_vec());
    assert_eq!(frame_command(b"  api status \n"), b"api status\n\n".to_vec());
    assert_eq!(frame_command(b""), b"\n\n".to_vec());
    assert_eq!(frame_command(b" \t\r\n"), b"\n\n".to_vec());
}

#[test]
fn wire_is_concatenation_of_frames_in_send_order() {
    let cmds: [&[u8]; 3] = [b"auth ClueCon", b" events json ALL ", b"api status"];
    let mut wire = Vec::new();
    for c in cmds {
        wire.extend_from_slice(&frame_command(c));
    }
    assert_eq!(
        wire,
        b"auth ClueCon\n\nevents json ALL\n\napi status\n\n".to_vec()
    );
}

#[test]
fn closed_latch_never_clears() {
    let mut st = SessionState::new();
    assert!(!st.is_closed());
    let _ = reader_step(&mut st, ReadEvent::CloseSignal);
    assert!(st.is_closed());
    // No later event clears the latch.
    let _ = reader_step(&mut st, ReadEvent::Shutdown);
    assert!(st.is_closed());
    let greeting = b"Content-Type: auth/request\n\n";
    let (m, _) = Message::parse(greeting, 0).unwrap();
    let _ = reader_step(&mut st, ReadEvent::Frame(Ok(m)));
    assert!(st.is_closed());
    let _ = reader_step(&mut st, ReadEvent::Frame(Err(MsgError::BodyParseFailed)));
    assert!(st.is_closed());

    let mut wst = SessionState::new();
    let _ = writer_step(&mut wst, WriteEvent::FlushFailed);
    assert!(wst.is_closed());
    let _ = writer_step(&mut wst, WriteEvent::Command(b"api status".to_vec()));
    assert!(wst.is_closed());
    let _ = writer_step(&mut wst, WriteEvent::WriteFailed);
    assert!(wst.is_closed());
}

#[test]
fn writer_frames_each_command() {
    let mut st = SessionState::new();
    let act = writer_step(&mut st, WriteEvent::Command(b" api status ".to_vec()));
    match act {
        WriteAction::Write(bytes) => assert_eq!(bytes, b"api status\n\n".to_vec()),
        _ => panic!("expected a write"),
    }
    assert!(!st.is_closed());
}

#[test]
fn writer_continues_after_write_failure() {
    let mut st = SessionState::new();
    let act = writer_step(&mut st, WriteEvent::WriteFailed);
    assert!(matches!(act, WriteAction::Ignore));
    assert!(!st.is_closed());
    let act = writer_step(&mut st, WriteEvent::FlushFailed);
    assert!(matches!(act, WriteAction::CloseAndContinue));
    assert!(st.is_closed());
}

#[test]
fn both_tasks_exit_silently_on_shutdown() {
    let mut st = SessionState::new();
    assert!(matches!(reader_step(&mut st, ReadEvent::Shutdown), ReadAction::Exit));
    assert!(!st.is_closed());
    assert!(matches!(writer_step(&mut st, WriteEvent::Shutdown), WriteAction::Exit));
    assert!(!st.is_closed());
}

#[test]
fn command_wire_forms() {
    assert_eq!(api_command(b"status"), b"api status".to_vec());
    assert_eq!(bigapi_command(b"status"), b"bigapi status".to_vec());
    assert_eq!(
        sendmsg_command(b"call-command: execute"),
        b"sendmsg call-command: execute".to_vec()
    );
    assert_eq!(events_command(FormatType::Json), b"events json ALL".to_vec());
    assert_eq!(events_command(FormatType::Xml), b"events xml ALL".to_vec());
    assert_eq!(events_command(FormatType::Plain), b"events plain ALL".to_vec());
    let names = vec![b"CHANNEL_CREATE".to_vec(), b"HEARTBEAT".to_vec()];
    assert_eq!(
        filter_command(&names),
        b"filter Event-Name CHANNEL_CREATE HEARTBEAT".to_vec()
    );
    assert_eq!(filter_command(&Vec::new()), b"filter Event-Name".to_vec());
}

#[test]
fn reply_ok_detection() {
    let ok = b"Content-Type: command/reply\nReply-Text: +OK job started\n\n";
    let (m, _) = Message::parse(ok, 0).unwrap();
    assert!(reply_is_ok(&m));
    let bad = b"Content-Type: command/reply\nReply-Text: -ERR not allowed\n\n";
    let (m, _) = Message::parse(bad, 0).unwrap();
    assert!(!reply_is_ok(&m));
    let none = b"Content-Type: auth/request\n\n";
    let (m, _) = Message::parse(none, 0).unwrap();
    assert!(!reply_is_ok(&m));
}

#[test]
fn api_reply_discipline() {
    // An api call awaits one reply message and hands it back unchanged.
    let cmd = api_command(b"create_uuid");
    assert_eq!(frame_command(&cmd), b"api create_uuid\n\n".to_vec());
    let reply =
        b"Content-Type: api/response\nContent-Length: 36\n\n0f2b1c3d-4e5f-6071-8293-a4b5c6d7e8f9";
    let (m, _) = Message::parse(reply, 0).unwrap();
    assert_eq!(
        m.get_header(b"Content-Length"),
        b"36".to_vec()
    );
}
