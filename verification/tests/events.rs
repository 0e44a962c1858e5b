//! The event catalog and the event-data map.

use esl::event::{Event, EventHandler, KvMap};

#[test]
fn event_round_trip_samples() {
    let all = [
        Event::AddSchedule,
        Event::Api,
        Event::BackgroundJob,
        Event::ChannelCreate,
        Event::ChannelCallState,
        Event::ChannelHangupComplete,
        Event::Custom,
        Event::Dtmf,
        Event::Heartbeat,
        Event::MessageWaiting,
        Event::ReloadXml,
        Event::SessionHeartbeat,
        Event::SubclassAny,
        Event::Unpublish,
    ];
    for e in all {
        assert_eq!(Event::from(e.to_string()), e);
    }
}

#[test]
fn event_wire_names() {
    assert_eq!(Event::Heartbeat.to_string(), "HEARTBEAT".to_string());
    assert_eq!(Event::ChannelCreate.to_string(), "CHANNEL_CREATE".to_string());
    assert_eq!(
        Event::ChannelCallState.to_string(),
        "CHANNEL_CALLSTATE".to_string()
    );
    assert_eq!(Event::ReloadXml.to_string(), "RELOADXML".to_string());
    assert_eq!(Event::NoneEvent.to_string(), "Invalid Event".to_string());
}

#[test]
fn unknown_event_decodes_to_sentinel() {
    assert_eq!(Event::from("not-a-real-event".to_string()), Event::NoneEvent);
    assert_eq!(Event::from("heartbeat".to_string()), Event::NoneEvent);
    assert_eq!(Event::from(String::new()), Event::NoneEvent);
}

#[test]
fn sentinel_round_trips_to_itself() {
    assert_eq!(Event::from(Event::NoneEvent.to_string()), Event::NoneEvent);
}

#[test]
fn event_data_get_and_set() {
    let mut ed = KvMap::new();
    assert_eq!(ed.get_header(b"Unique-ID"), Vec::<u8>::new());
    ed.set_header(b"Unique-ID".to_vec(), b"abc".to_vec());
    assert_eq!(ed.get_header(b"Unique-ID"), b"abc".to_vec());
    ed.set_header(b"Unique-ID".to_vec(), b"def".to_vec());
    assert_eq!(ed.get_header(b"Unique-ID"), b"def".to_vec());
    assert_eq!(ed.len(), 1);
    ed.set_header(b"Other".to_vec(), b"1".to_vec());
    assert_eq!(ed.len(), 2);
    assert_eq!(ed.entry_at(0).0, b"Unique-ID".to_vec());
    assert_eq!(ed.entry_at(1).0, b"Other".to_vec());
}

#[test]
fn kv_map_get_and_order() {
    let mut m = KvMap::new();
    m.insert(b"A".to_vec(), b"1".to_vec());
    m.insert(b"B".to_vec(), b"2".to_vec());
    m.insert(b"A".to_vec(), b"3".to_vec());
    assert_eq!(m.get(b"A"), Some(b"3".to_vec()));
    assert_eq!(m.get(b"B"), Some(b"2".to_vec()));
    assert_eq!(m.get(b"C"), None);
    // Overwriting keeps the original position.
    assert_eq!(m.entry_at(0).0, b"A".to_vec());
    assert_eq!(m.entry_at(0).1, b"3".to_vec());
    let pairs = m.pairs();
    assert_eq!(
        pairs,
        vec![(b"A".to_vec(), b"3".to_vec()), (b"B".to_vec(), b"2".to_vec())]
    );
}
