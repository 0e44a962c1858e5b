//! Serialization and re-parsing: the round trip, rendering, draining.

use esl::event::{EventHandler, KvMap};
use esl::message::Message;
use esl::session::drain_buffer;

#[test]
fn serialized_json_message_parses_back() {
    let mut ed = KvMap::new();
    ed.insert(b"Event-Name".to_vec(), b"HEARTBEAT".to_vec());
    ed.insert(b"Unique-ID".to_vec(), b"abc-123".to_vec());
    let body_len = {
        // The body is the event data as one JSON object.
        let probe = Message::new(KvMap::new(), Some(clone_map(&ed)));
        probe.serialize().len() - 1 // minus the blank line of the empty header block
    };
    let mut h = KvMap::new();
    h.insert(b"Content-Type".to_vec(), b"text/event-json".to_vec());
    h.insert(
        b"Content-Length".to_vec(),
        body_len.to_string().into_bytes(),
    );
    let m = Message::new(h, Some(ed));
    let bytes = m.serialize();
    let (m2, p) = Message::parse(&bytes, 0).unwrap();
    assert_eq!(p, bytes.len());
    assert_eq!(
        m2.get_header(b"Content-Type"),
        b"text/event-json".to_vec()
    );
    let ed2 = m2.event_data.as_ref().unwrap();
    assert_eq!(ed2.get_header(b"Event-Name"), b"HEARTBEAT".to_vec());
    assert_eq!(ed2.get_header(b"Unique-ID"), b"abc-123".to_vec());
    // Same field order as well.
    assert_eq!(ed2.entry_at(0).0, b"Event-Name".to_vec());
    assert_eq!(ed2.entry_at(1).0, b"Unique-ID".to_vec());
}

fn clone_map(m: &KvMap) -> KvMap {
    KvMap::from_pairs(m.pairs())
}

#[test]
fn serialized_headers_only_message_parses_back() {
    let mut h = KvMap::new();
    h.insert(b"Content-Type".to_vec(), b"auth/request".to_vec());
    h.insert(b"X-Extra".to_vec(), b"yes".to_vec());
    let m = Message::new(h, None);
    let bytes = m.serialize();
    assert_eq!(
        bytes,
        b"Content-Type: auth/request\nX-Extra: yes\n\n".to_vec()
    );
    let (m2, p) = Message::parse(&bytes, 0).unwrap();
    assert_eq!(p, bytes.len());
    assert_eq!(m2.get_header(b"Content-Type"), b"auth/request".to_vec());
    assert_eq!(m2.get_header(b"X-Extra"), b"yes".to_vec());
    assert!(m2.event_data.is_none());
}

#[test]
fn rendering_shows_headers_and_json() {
    let mut h = KvMap::new();
    h.insert(b"Content-Type".to_vec(), b"text/event-json".to_vec());
    let mut ed = KvMap::new();
    ed.insert(b"Event-Name".to_vec(), b"HEARTBEAT".to_vec());
    let m = Message::new(h, Some(ed));
    let text = m.to_bytes();
    assert_eq!(
        text,
        b"Content-Type: text/event-json\n{\"Event-Name\":\"HEARTBEAT\"}\n".to_vec()
    );
}

#[test]
fn drain_returns_messages_in_wire_order() {
    let mut bytes = Vec::new();
    bytes.extend_from_slice(b"Content-Type: auth/request\n\n");
    bytes.extend_from_slice(b"Content-Type: command/reply\nReply-Text: +OK accepted\n\n");
    bytes.extend_from_slice(b"Content-Type: api/response\nContent-Length: 2\n\nok");
    bytes.extend_from_slice(b"Content-Type: command/reply\nReply-Text: trailing\n"); // incomplete
    let (msgs, pos) = drain_buffer(&bytes, 0);
    assert_eq!(msgs.len(), 3);
    assert_eq!(msgs[0].get_header(b"Content-Type"), b"auth/request".to_vec());
    assert_eq!(msgs[1].get_header(b"Reply-Text"), b"+OK accepted".to_vec());
    assert_eq!(msgs[2].get_header(b"Content-Type"), b"api/response".to_vec());
    assert_eq!(&bytes[pos..], b"Content-Type: command/reply\nReply-Text: trailing\n");
}

#[test]
fn drain_skips_rejected_frames_and_resyncs() {
    let mut bytes = Vec::new();
    bytes.extend_from_slice(b"Content-Type: text/html\n\n"); // unsupported: skipped
    bytes.extend_from_slice(b"Content-Type: auth/request\n\n");
    let (msgs, pos) = drain_buffer(&bytes, 0);
    assert_eq!(msgs.len(), 1);
    assert_eq!(msgs[0].get_header(b"Content-Type"), b"auth/request".to_vec());
    assert_eq!(pos, bytes.len());
}

#[test]
fn drain_of_empty_buffer_waits() {
    let (msgs, pos) = drain_buffer(b"", 0);
    assert!(msgs.is_empty());
    assert_eq!(pos, 0);
}
