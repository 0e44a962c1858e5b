//! Event data values: the ordered key/value map that carries both a message's
//! headers and its decoded event body, and the closed catalog of event names.

use vstd::prelude::*;

verus! {

use vstd::string::StringSliceAdditionalSpecFns;
use vstd::string::StringExecFns;

broadcast use vstd::string::group_string_axioms;

use crate::text::spec_find;

/// The index of the first entry of `m` whose key is `k`, searching from `i`.
pub open spec fn spec_kv_find(m: Seq<(Seq<u8>, Seq<u8>)>, k: Seq<u8>, i: int) -> Option<int>
    decreases m.len() - i,
{
    if i < 0 || i >= m.len() {
        None
    } else if m[i].0 == k {
        Some(i)
    } else {
        spec_kv_find(m, k, i + 1)
    }
}

/// The value mapped to `k`, if any.
pub open spec fn spec_kv_get(m: Seq<(Seq<u8>, Seq<u8>)>, k: Seq<u8>) -> Option<Seq<u8>> {
    match spec_kv_find(m, k, 0) {
        Some(i) => Some(m[i].1),
        None => None,
    }
}

/// The value mapped to `k`, or the empty byte string when `k` is absent.
pub open spec fn spec_kv_get_or_empty(m: Seq<(Seq<u8>, Seq<u8>)>, k: Seq<u8>) -> Seq<u8> {
    match spec_kv_get(m, k) {
        Some(v) => v,
        None => Seq::empty(),
    }
}

/// Map `k` to `v`: overwrite in place when `k` is present, else append.
pub open spec fn spec_kv_insert(
    m: Seq<(Seq<u8>, Seq<u8>)>,
    k: Seq<u8>,
    v: Seq<u8>,
) -> Seq<(Seq<u8>, Seq<u8>)> {
    match spec_kv_find(m, k, 0) {
        Some(i) => m.update(i, (k, v)),
        None => m.push((k, v)),
    }
}

/// No two entries share a key.
pub open spec fn spec_kv_unique(m: Seq<(Seq<u8>, Seq<u8>)>) -> bool {
    forall|i: int, j: int| 0 <= i < j < m.len() ==> m[i].0 != m[j].0
}

/// The views of a sequence of key/value byte vectors.
pub open spec fn pairs_view(ps: Seq<(Vec<u8>, Vec<u8>)>) -> Seq<(Seq<u8>, Seq<u8>)> {
    ps.map_values(|p: (Vec<u8>, Vec<u8>)| (p.0@, p.1@))
}

/// An ordered mapping from byte-string field names to byte-string values.
///
/// Insertion order is preserved; inserting an existing key overwrites its
/// value in place; lookup is by exact field name.
#[derive(Debug)]
pub struct KvMap {
    entries: Vec<(Vec<u8>, Vec<u8>)>,
}

/// Event data decoded from a message body: field names mapped to values.
pub type EventData = KvMap;

impl View for KvMap {
    type V = Seq<(Seq<u8>, Seq<u8>)>;

    closed spec fn view(&self) -> Seq<(Seq<u8>, Seq<u8>)> {
        pairs_view(self.entries@)
    }
}

impl KvMap {
    /// All keys are distinct.
    pub open spec fn wf(&self) -> bool {
        spec_kv_unique(self@)
    }

    /// A map holding exactly the given entries, in order.
    pub fn from_pairs(pairs: Vec<(Vec<u8>, Vec<u8>)>) -> (r: KvMap)
        ensures
            r@ == pairs_view(pairs@),
    {
        KvMap { entries: pairs }
    }

    /// The empty map.
    pub fn new() -> (r: KvMap)
        ensures
            r@ == Seq::<(Seq<u8>, Seq<u8>)>::empty(),
            r.wf(),
    {
        let r = KvMap { entries: Vec::new() };
        proof {
            assert(r@ =~= Seq::<(Seq<u8>, Seq<u8>)>::empty());
        }
        r
    }

    /// How many fields the map holds.
    pub fn len(&self) -> (r: usize)
        ensures
            r == self@.len(),
    {
        self.entries.len()
    }

    /// The entry at position `i`, as fresh vectors.
    pub fn entry_at(&self, i: usize) -> (r: (Vec<u8>, Vec<u8>))
        requires
            i < self@.len(),
        ensures
            r.0@ == self@[i as int].0,
            r.1@ == self@[i as int].1,
            (r.0@, r.1@) == self@[i as int],
    {
        let k = crate::text::slice_range_to_vec(self.entries[i].0.as_slice(), 0, self.entries[i].0.len());
        let v = crate::text::slice_range_to_vec(self.entries[i].1.as_slice(), 0, self.entries[i].1.len());
        proof {
            assert(self.entries@[i as int].0@.subrange(0, self.entries@[i as int].0@.len() as int)
                =~= self.entries@[i as int].0@);
            assert(self.entries@[i as int].1@.subrange(0, self.entries@[i as int].1@.len() as int)
                =~= self.entries@[i as int].1@);
        }
        (k, v)
    }

    /// The entries as a fresh vector of key/value byte vectors, in order.
    pub fn pairs(&self) -> (r: Vec<(Vec<u8>, Vec<u8>)>)
        ensures
            pairs_view(r@) == self@,
    {
        let n = self.entries.len();
        let mut out: Vec<(Vec<u8>, Vec<u8>)> = Vec::new();
        let mut i: usize = 0;
        while i < n
            invariant
                i <= n,
                n == self@.len(),
                pairs_view(out@) == self@.take(i as int),
            decreases n - i,
        {
            let ghost prev = out@;
            let p = self.entry_at(i);
            out.push(p);
            i = i + 1;
            proof {
                assert(prev.len() == pairs_view(prev).len());
                assert(out@.len() == i);
                assert forall|j: int| 0 <= j < i implies pairs_view(out@)[j] == self@.take(
                    i as int,
                )[j] by {
                    if j < i - 1 {
                        assert(out@[j] == prev[j]);
                        assert(pairs_view(prev)[j] == self@.take(i - 1)[j]);
                    } else {
                        assert(out@[j] == p);
                    }
                }
                assert(pairs_view(out@) =~= self@.take(i as int));
            }
        }
        proof {
            assert(self@.take(n as int) =~= self@);
        }
        out
    }

    /// The index of `k` in the map, if present.
    fn find(&self, k: &[u8]) -> (r: Option<usize>)
        ensures
            match r {
                Some(i) => i < self@.len() && spec_kv_find(self@, k@, 0) == Some(i as int),
                None => spec_kv_find(self@, k@, 0) is None,
            },
    {
        let n = self.entries.len();
        let mut i: usize = 0;
        while i < n
            invariant
                i <= n,
                n == self@.len(),
                spec_kv_find(self@, k@, 0) == spec_kv_find(self@, k@, i as int),
            decreases n - i,
        {
            if crate::text::bytes_eq(self.entries[i].0.as_slice(), k) {
                return Some(i);
            }
            i = i + 1;
        }
        None
    }

    /// Look `k` up; `None` when it is absent.
    pub fn get(&self, k: &[u8]) -> (r: Option<Vec<u8>>)
        ensures
            match r {
                Some(v) => spec_kv_get(self@, k@) == Some(v@),
                None => spec_kv_get(self@, k@) is None,
            },
    {
        match self.find(k) {
            Some(i) => {
                let v = crate::text::slice_range_to_vec(
                    self.entries[i].1.as_slice(),
                    0,
                    self.entries[i].1.len(),
                );
                proof {
                    assert(self.entries@[i as int].1@.subrange(
                        0,
                        self.entries@[i as int].1@.len() as int,
                    ) =~= self.entries@[i as int].1@);
                }
                Some(v)
            },
            None => None,
        }
    }

    /// Map `k` to `v`, overwriting in place when `k` is already present.
    pub fn insert(&mut self, k: Vec<u8>, v: Vec<u8>)
        ensures
            final(self)@ == spec_kv_insert(old(self)@, k@, v@),
            old(self).wf() ==> final(self).wf(),
    {
        let ghost m0 = self@;
        match self.find(k.as_slice()) {
            Some(i) => {
                self.entries.set(i, (k, v));
                proof {
                    assert(self@ =~= spec_kv_insert(m0, k@, v@));
                    if spec_kv_unique(m0) {
                        lemma_kv_find_first(m0, k@, 0);
                        assert forall|a: int, b: int| 0 <= a < b < self@.len() implies self@[a].0
                            != self@[b].0 by {
                            assert(m0[a].0 != m0[b].0);
                        }
                    }
                }
            },
            None => {
                self.entries.push((k, v));
                proof {
                    assert(self@ =~= spec_kv_insert(m0, k@, v@));
                    if spec_kv_unique(m0) {
                        lemma_kv_find_none(m0, k@, 0);
                        assert forall|a: int, b: int| 0 <= a < b < self@.len() implies self@[a].0
                            != self@[b].0 by {
                            if b < m0.len() {
                                assert(m0[a].0 != m0[b].0);
                            } else {
                                assert(self@[b].0 == k@);
                                assert(m0[a].0 != k@);
                            }
                        }
                    }
                }
            },
        }
    }
}

/// When a key is found at `i`, no earlier position from `from` holds it,
/// and under uniqueness the match is the only one.
proof fn lemma_kv_find_first(m: Seq<(Seq<u8>, Seq<u8>)>, k: Seq<u8>, from: int)
    requires
        spec_kv_find(m, k, from) is Some,
    ensures
        from <= spec_kv_find(m, k, from).unwrap() < m.len(),
        m[spec_kv_find(m, k, from).unwrap()].0 == k,
        forall|j: int|
            from <= j < spec_kv_find(m, k, from).unwrap() ==> m[j].0 != k,
    decreases m.len() - from,
{
    if !(from < 0 || from >= m.len()) && m[from].0 != k {
        lemma_kv_find_first(m, k, from + 1);
    }
}

/// When a key is not found, no position from `from` on holds it.
proof fn lemma_kv_find_none(m: Seq<(Seq<u8>, Seq<u8>)>, k: Seq<u8>, from: int)
    requires
        0 <= from,
        spec_kv_find(m, k, from) is None,
    ensures
        forall|j: int| from <= j < m.len() ==> m[j].0 != k,
    decreases m.len() - from,
{
    if !(from < 0 || from >= m.len()) {
        lemma_kv_find_none(m, k, from + 1);
    }
}

/// A key that no entry holds is not found.
pub proof fn lemma_kv_find_absent(m: Seq<(Seq<u8>, Seq<u8>)>, k: Seq<u8>, from: int)
    requires
        0 <= from,
        forall|j: int| from <= j < m.len() ==> m[j].0 != k,
    ensures
        spec_kv_find(m, k, from) is None,
    decreases m.len() - from,
{
    if from < m.len() {
        lemma_kv_find_absent(m, k, from + 1);
    }
}

/// Inserting a key that no entry holds appends the new entry.
pub proof fn lemma_kv_insert_absent(m: Seq<(Seq<u8>, Seq<u8>)>, k: Seq<u8>, v: Seq<u8>)
    requires
        forall|j: int| 0 <= j < m.len() ==> m[j].0 != k,
    ensures
        spec_kv_insert(m, k, v) == m.push((k, v)),
{
    lemma_kv_find_absent(m, k, 0);
}

/// Read and write event fields by name.
pub trait EventHandler {
    /// The fields as a sequence of key/value pairs.
    spec fn kv_view(&self) -> Seq<(Seq<u8>, Seq<u8>)>;

    /// The value of field `k`, or the empty byte string when `k` is absent.
    fn get_header(&self, k: &[u8]) -> (r: Vec<u8>)
        ensures
            r@ == spec_kv_get_or_empty(self.kv_view(), k@),
    ;

    /// Set field `k` to `v`.
    fn set_header(&mut self, k: Vec<u8>, v: Vec<u8>)
        ensures
            final(self).kv_view() == spec_kv_insert(old(self).kv_view(), k@, v@),
    ;
}

impl EventHandler for KvMap {
    open spec fn kv_view(&self) -> Seq<(Seq<u8>, Seq<u8>)> {
        self@
    }

    fn get_header(&self, k: &[u8]) -> (r: Vec<u8>)
    {
        match self.get(k) {
            Some(v) => v,
            None => Vec::new(),
        }
    }

    fn set_header(&mut self, k: Vec<u8>, v: Vec<u8>)
    {
        self.insert(k, v);
    }
}

/// The closed enumeration of server event names. `NoneEvent` is the sentinel for
/// an unrecognized name.
#[derive(Debug, PartialEq, Eq, Structural, Clone, Copy)]
pub enum Event {
    AddSchedule,
    Api,
    BackgroundJob,
    CallDetail,
    CallSecure,
    CallSetupReq,
    CallUpdate,
    Cdr,
    ChannelAnswer,
    ChannelApplication,
    ChannelBridge,
    ChannelCallState,
    ChannelCreate,
    ChannelData,
    ChannelDestroy,
    ChannelExecute,
    ChannelExecuteComplete,
    ChannelGlobal,
    ChannelHangup,
    ChannelHangupComplete,
    ChannelHold,
    ChannelOriginate,
    ChannelOutgoing,
    ChannelPark,
    ChannelProgress,
    ChannelProgressMedia,
    ChannelState,
    ChannelUnbridge,
    ChannelUnhold,
    ChannelUnpark,
    ChannelUuid,
    Clone,
    Codec,
    Command,
    ConferenceData,
    ConferenceDataQuery,
    Custom,
    DelSchedule,
    DetectedSpeech,
    DetectedTone,
    DeviceState,
    Dtmf,
    ExeSchedule,
    Failure,
    General,
    Heartbeat,
    Log,
    MediaBugStart,
    MediaBugStop,
    Message,
    MessageQuery,
    MessageWaiting,
    ModuleLoad,
    ModuleUnload,
    Nat,
    Notalk,
    Notify,
    NotifyIn,
    PhoneFeature,
    PhoneFeatureSubscribe,
    PlaybackStart,
    PlaybackStop,
    PresenceIn,
    PresenceOut,
    PresenceProbe,
    PrivateCommand,
    Publish,
    QueueLen,
    RecordStart,
    RecordStop,
    RecvInfo,
    RecvMessage,
    RecvRtcpMessage,
    Recycle,
    ReloadXml,
    RequestParams,
    ReSchedule,
    Roster,
    SendInfo,
    SendMessage,
    SessionHeartbeat,
    Shutdown,
    Startup,
    SubclassAny,
    Talk,
    Trap,
    Unpublish,
    NoneEvent,
}

/// The canonical wire string of an event name.
pub open spec fn spec_event_name(e: Event) -> Seq<char> {
    match e {
        Event::AddSchedule => ("ADD_SCHEDULE")@,
        Event::Api => ("API")@,
        Event::BackgroundJob => ("BACKGROUND_JOB")@,
        Event::CallDetail => ("CALL_DETAIL")@,
        Event::CallSecure => ("CALL_SECURE")@,
        Event::CallSetupReq => ("CALL_SETUP_REQ")@,
        Event::CallUpdate => ("CALL_UPDATE")@,
        Event::Cdr => ("CDR")@,
        Event::ChannelAnswer => ("CHANNEL_ANSWER")@,
        Event::ChannelApplication => ("CHANNEL_APPLICATION")@,
        Event::ChannelBridge => ("CHANNEL_BRIDGE")@,
        Event::ChannelCallState => ("CHANNEL_CALLSTATE")@,
        Event::ChannelCreate => ("CHANNEL_CREATE")@,
        Event::ChannelData => ("CHANNEL_DATA")@,
        Event::ChannelDestroy => ("CHANNEL_DESTROY")@,
        Event::ChannelExecute => ("CHANNEL_EXECUTE")@,
        Event::ChannelExecuteComplete => ("CHANNEL_EXECUTE_COMPLETE")@,
        Event::ChannelGlobal => ("CHANNEL_GLOBAL")@,
        Event::ChannelHangup => ("CHANNEL_HANGUP")@,
        Event::ChannelHangupComplete => ("CHANNEL_HANGUP_COMPLETE")@,
        Event::ChannelHold => ("CHANNEL_HOLD")@,
        Event::ChannelOriginate => ("CHANNEL_ORIGINATE")@,
        Event::ChannelOutgoing => ("CHANNEL_OUTGOING")@,
        Event::ChannelPark => ("CHANNEL_PARK")@,
        Event::ChannelProgress => ("CHANNEL_PROGRESS")@,
        Event::ChannelProgressMedia => ("CHANNEL_PROGRESS_MEDIA")@,
        Event::ChannelState => ("CHANNEL_STATE")@,
        Event::ChannelUnbridge => ("CHANNEL_UNBRIDGE")@,
        Event::ChannelUnhold => ("CHANNEL_UNHOLD")@,
        Event::ChannelUnpark => ("CHANNEL_UNPARK")@,
        Event::ChannelUuid => ("CHANNEL_UUID")@,
        Event::Clone => ("CLONE")@,
        Event::Codec => ("CODEC")@,
        Event::Command => ("COMMAND")@,
        Event::ConferenceData => ("CONFERENCE_DATA")@,
        Event::ConferenceDataQuery => ("CONFERENCE_DATA_QUERY")@,
        Event::Custom => ("CUSTOM")@,
        Event::DelSchedule => ("DEL_SCHEDULE")@,
        Event::DetectedSpeech => ("DETECTED_SPEECH")@,
        Event::DetectedTone => ("DETECTED_TONE")@,
        Event::DeviceState => ("DEVICE_STATE")@,
        Event::Dtmf => ("DTMF")@,
        Event::ExeSchedule => ("EXE_SCHEDULE")@,
        Event::Failure => ("FAILURE")@,
        Event::General => ("GENERAL")@,
        Event::Heartbeat => ("HEARTBEAT")@,
        Event::Log => ("LOG")@,
        Event::MediaBugStart => ("MEDIA_BUG_START")@,
        Event::MediaBugStop => ("MEDIA_BUG_STOP")@,
        Event::Message => ("MESSAGE")@,
        Event::MessageQuery => ("MESSAGE_QUERY")@,
        Event::MessageWaiting => ("MESSAGE_WAITING")@,
        Event::ModuleLoad => ("MODULE_LOAD")@,
        Event::ModuleUnload => ("MODULE_UNLOAD")@,
        Event::Nat => ("NAT")@,
        Event::Notalk => ("NOTALK")@,
        Event::Notify => ("NOTIFY")@,
        Event::NotifyIn => ("NOTIFY_IN")@,
        Event::PhoneFeature => ("PHONE_FEATURE")@,
        Event::PhoneFeatureSubscribe => ("PHONE_FEATURE_SUBSCRIBE")@,
        Event::PlaybackStart => ("PLAYBACK_START")@,
        Event::PlaybackStop => ("PLAYBACK_STOP")@,
        Event::PresenceIn => ("PRESENCE_IN")@,
        Event::PresenceOut => ("PRESENCE_OUT")@,
        Event::PresenceProbe => ("PRESENCE_PROBE")@,
        Event::PrivateCommand => ("PRIVATE_COMMAND")@,
        Event::Publish => ("PUBLISH")@,
        Event::QueueLen => ("QUEUE_LEN")@,
        Event::RecordStart => ("RECORD_START")@,
        Event::RecordStop => ("RECORD_STOP")@,
        Event::RecvInfo => ("RECV_INFO")@,
        Event::RecvMessage => ("RECV_MESSAGE")@,
        Event::RecvRtcpMessage => ("RECV_RTCP_MESSAGE")@,
        Event::Recycle => ("RECYCLE")@,
        Event::ReloadXml => ("RELOADXML")@,
        Event::RequestParams => ("REQUEST_PARAMS")@,
        Event::ReSchedule => ("RE_SCHEDULE")@,
        Event::Roster => ("ROSTER")@,
        Event::SendInfo => ("SEND_INFO")@,
        Event::SendMessage => ("SEND_MESSAGE")@,
        Event::SessionHeartbeat => ("SESSION_HEARTBEAT")@,
        Event::Shutdown => ("SHUTDOWN")@,
        Event::Startup => ("STARTUP")@,
        Event::SubclassAny => ("SUBCLASS_ANY")@,
        Event::Talk => ("TALK")@,
        Event::Trap => ("TRAP")@,
        Event::Unpublish => ("UNPUBLISH")@,
        Event::NoneEvent => ("Invalid Event")@,
    }
}

/// The event whose wire string is `s`; every unrecognized value decodes to
/// the sentinel `NoneEvent`.
pub open spec fn spec_event_of(s: Seq<char>) -> Event {
    if s == ("ADD_SCHEDULE")@ {
        Event::AddSchedule
    } else if s == ("API")@ {
        Event::Api
    } else if s == ("BACKGROUND_JOB")@ {
        Event::BackgroundJob
    } else if s == ("CALL_DETAIL")@ {
        Event::CallDetail
    } else if s == ("CALL_SECURE")@ {
        Event::CallSecure
    } else if s == ("CALL_SETUP_REQ")@ {
        Event::CallSetupReq
    } else if s == ("CALL_UPDATE")@ {
        Event::CallUpdate
    } else if s == ("CDR")@ {
        Event::Cdr
    } else if s == ("CHANNEL_ANSWER")@ {
        Event::ChannelAnswer
    } else if s == ("CHANNEL_APPLICATION")@ {
        Event::ChannelApplication
    } else if s == ("CHANNEL_BRIDGE")@ {
        Event::ChannelBridge
    } else if s == ("CHANNEL_CALLSTATE")@ {
        Event::ChannelCallState
    } else if s == ("CHANNEL_CREATE")@ {
        Event::ChannelCreate
    } else if s == ("CHANNEL_DATA")@ {
        Event::ChannelData
    } else if s == ("CHANNEL_DESTROY")@ {
        Event::ChannelDestroy
    } else if s == ("CHANNEL_EXECUTE")@ {
        Event::ChannelExecute
    } else if s == ("CHANNEL_EXECUTE_COMPLETE")@ {
        Event::ChannelExecuteComplete
    } else if s == ("CHANNEL_GLOBAL")@ {
        Event::ChannelGlobal
    } else if s == ("CHANNEL_HANGUP")@ {
        Event::ChannelHangup
    } else if s == ("CHANNEL_HANGUP_COMPLETE")@ {
        Event::ChannelHangupComplete
    } else if s == ("CHANNEL_HOLD")@ {
        Event::ChannelHold
    } else if s == ("CHANNEL_ORIGINATE")@ {
        Event::ChannelOriginate
    } else if s == ("CHANNEL_OUTGOING")@ {
        Event::ChannelOutgoing
    } else if s == ("CHANNEL_PARK")@ {
        Event::ChannelPark
    } else if s == ("CHANNEL_PROGRESS")@ {
        Event::ChannelProgress
    } else if s == ("CHANNEL_PROGRESS_MEDIA")@ {
        Event::ChannelProgressMedia
    } else if s == ("CHANNEL_STATE")@ {
        Event::ChannelState
    } else if s == ("CHANNEL_UNBRIDGE")@ {
        Event::ChannelUnbridge
    } else if s == ("CHANNEL_UNHOLD")@ {
        Event::ChannelUnhold
    } else if s == ("CHANNEL_UNPARK")@ {
        Event::ChannelUnpark
    } else if s == ("CHANNEL_UUID")@ {
        Event::ChannelUuid
    } else if s == ("CLONE")@ {
        Event::Clone
    } else if s == ("CODEC")@ {
        Event::Codec
    } else if s == ("COMMAND")@ {
        Event::Command
    } else if s == ("CONFERENCE_DATA")@ {
        Event::ConferenceData
    } else if s == ("CONFERENCE_DATA_QUERY")@ {
        Event::ConferenceDataQuery
    } else if s == ("CUSTOM")@ {
        Event::Custom
    } else if s == ("DEL_SCHEDULE")@ {
        Event::DelSchedule
    } else if s == ("DETECTED_SPEECH")@ {
        Event::DetectedSpeech
    } else if s == ("DETECTED_TONE")@ {
        Event::DetectedTone
    } else if s == ("DEVICE_STATE")@ {
        Event::DeviceState
    } else if s == ("DTMF")@ {
        Event::Dtmf
    } else if s == ("EXE_SCHEDULE")@ {
        Event::ExeSchedule
    } else if s == ("FAILURE")@ {
        Event::Failure
    } else if s == ("GENERAL")@ {
        Event::General
    } else if s == ("HEARTBEAT")@ {
        Event::Heartbeat
    } else if s == ("LOG")@ {
        Event::Log
    } else if s == ("MEDIA_BUG_START")@ {
        Event::MediaBugStart
    } else if s == ("MEDIA_BUG_STOP")@ {
        Event::MediaBugStop
    } else if s == ("MESSAGE")@ {
        Event::Message
    } else if s == ("MESSAGE_QUERY")@ {
        Event::MessageQuery
    } else if s == ("MESSAGE_WAITING")@ {
        Event::MessageWaiting
    } else if s == ("MODULE_LOAD")@ {
        Event::ModuleLoad
    } else if s == ("MODULE_UNLOAD")@ {
        Event::ModuleUnload
    } else if s == ("NAT")@ {
        Event::Nat
    } else if s == ("NOTALK")@ {
        Event::Notalk
    } else if s == ("NOTIFY")@ {
        Event::Notify
    } else if s == ("NOTIFY_IN")@ {
        Event::NotifyIn
    } else if s == ("PHONE_FEATURE")@ {
        Event::PhoneFeature
    } else if s == ("PHONE_FEATURE_SUBSCRIBE")@ {
        Event::PhoneFeatureSubscribe
    } else if s == ("PLAYBACK_START")@ {
        Event::PlaybackStart
    } else if s == ("PLAYBACK_STOP")@ {
        Event::PlaybackStop
    } else if s == ("PRESENCE_IN")@ {
        Event::PresenceIn
    } else if s == ("PRESENCE_OUT")@ {
        Event::PresenceOut
    } else if s == ("PRESENCE_PROBE")@ {
        Event::PresenceProbe
    } else if s == ("PRIVATE_COMMAND")@ {
        Event::PrivateCommand
    } else if s == ("PUBLISH")@ {
        Event::Publish
    } else if s == ("QUEUE_LEN")@ {
        Event::QueueLen
    } else if s == ("RECORD_START")@ {
        Event::RecordStart
    } else if s == ("RECORD_STOP")@ {
        Event::RecordStop
    } else if s == ("RECV_INFO")@ {
        Event::RecvInfo
    } else if s == ("RECV_MESSAGE")@ {
        Event::RecvMessage
    } else if s == ("RECV_RTCP_MESSAGE")@ {
        Event::RecvRtcpMessage
    } else if s == ("RECYCLE")@ {
        Event::Recycle
    } else if s == ("RELOADXML")@ {
        Event::ReloadXml
    } else if s == ("REQUEST_PARAMS")@ {
        Event::RequestParams
    } else if s == ("RE_SCHEDULE")@ {
        Event::ReSchedule
    } else if s == ("ROSTER")@ {
        Event::Roster
    } else if s == ("SEND_INFO")@ {
        Event::SendInfo
    } else if s == ("SEND_MESSAGE")@ {
        Event::SendMessage
    } else if s == ("SESSION_HEARTBEAT")@ {
        Event::SessionHeartbeat
    } else if s == ("SHUTDOWN")@ {
        Event::Shutdown
    } else if s == ("STARTUP")@ {
        Event::Startup
    } else if s == ("SUBCLASS_ANY")@ {
        Event::SubclassAny
    } else if s == ("TALK")@ {
        Event::Talk
    } else if s == ("TRAP")@ {
        Event::Trap
    } else if s == ("UNPUBLISH")@ {
        Event::Unpublish
    } else {
        Event::NoneEvent
    }
}

/// Character sequences with the same UTF-8 encoding are the same.
proof fn lemma_encode_utf8_injective(a: Seq<char>, b: Seq<char>)
    requires
        vstd::utf8::encode_utf8(a) == vstd::utf8::encode_utf8(b),
    ensures
        a == b,
{
    vstd::utf8::encode_utf8_decode_utf8(a);
    vstd::utf8::encode_utf8_decode_utf8(b);
}

/// Whether two string slices hold the same characters.
fn str_eq(a: &str, b: &str) -> (r: bool)
    ensures
        r == (a@ == b@),
{
    let r = crate::text::bytes_eq(a.as_bytes(), b.as_bytes());
    proof {
        if a.spec_bytes() == b.spec_bytes() {
            lemma_encode_utf8_injective(a@, b@);
        }
    }
    r
}

impl Event {
    /// The event a wire string names; an unrecognized name decodes to the
    /// sentinel `NoneEvent`.
    pub fn from_name(s: &str) -> (r: Event)
        ensures
            r == spec_event_of(s@),
    {
        if str_eq(s, "ADD_SCHEDULE") {
            Event::AddSchedule
        } else if str_eq(s, "API") {
            Event::Api
        } else if str_eq(s, "BACKGROUND_JOB") {
            Event::BackgroundJob
        } else if str_eq(s, "CALL_DETAIL") {
            Event::CallDetail
        } else if str_eq(s, "CALL_SECURE") {
            Event::CallSecure
        } else if str_eq(s, "CALL_SETUP_REQ") {
            Event::CallSetupReq
        } else if str_eq(s, "CALL_UPDATE") {
            Event::CallUpdate
        } else if str_eq(s, "CDR") {
            Event::Cdr
        } else if str_eq(s, "CHANNEL_ANSWER") {
            Event::ChannelAnswer
        } else if str_eq(s, "CHANNEL_APPLICATION") {
            Event::ChannelApplication
        } else if str_eq(s, "CHANNEL_BRIDGE") {
            Event::ChannelBridge
        } else if str_eq(s, "CHANNEL_CALLSTATE") {
            Event::ChannelCallState
        } else if str_eq(s, "CHANNEL_CREATE") {
            Event::ChannelCreate
        } else if str_eq(s, "CHANNEL_DATA") {
            Event::ChannelData
        } else if str_eq(s, "CHANNEL_DESTROY") {
            Event::ChannelDestroy
        } else if str_eq(s, "CHANNEL_EXECUTE") {
            Event::ChannelExecute
        } else if str_eq(s, "CHANNEL_EXECUTE_COMPLETE") {
            Event::ChannelExecuteComplete
        } else if str_eq(s, "CHANNEL_GLOBAL") {
            Event::ChannelGlobal
        } else if str_eq(s, "CHANNEL_HANGUP") {
            Event::ChannelHangup
        } else if str_eq(s, "CHANNEL_HANGUP_COMPLETE") {
            Event::ChannelHangupComplete
        } else if str_eq(s, "CHANNEL_HOLD") {
            Event::ChannelHold
        } else if str_eq(s, "CHANNEL_ORIGINATE") {
            Event::ChannelOriginate
        } else if str_eq(s, "CHANNEL_OUTGOING") {
            Event::ChannelOutgoing
        } else if str_eq(s, "CHANNEL_PARK") {
            Event::ChannelPark
        } else if str_eq(s, "CHANNEL_PROGRESS") {
            Event::ChannelProgress
        } else if str_eq(s, "CHANNEL_PROGRESS_MEDIA") {
            Event::ChannelProgressMedia
        } else if str_eq(s, "CHANNEL_STATE") {
            Event::ChannelState
        } else if str_eq(s, "CHANNEL_UNBRIDGE") {
            Event::ChannelUnbridge
        } else if str_eq(s, "CHANNEL_UNHOLD") {
            Event::ChannelUnhold
        } else if str_eq(s, "CHANNEL_UNPARK") {
            Event::ChannelUnpark
        } else if str_eq(s, "CHANNEL_UUID") {
            Event::ChannelUuid
        } else if str_eq(s, "CLONE") {
            Event::Clone
        } else if str_eq(s, "CODEC") {
            Event::Codec
        } else if str_eq(s, "COMMAND") {
            Event::Command
        } else if str_eq(s, "CONFERENCE_DATA") {
            Event::ConferenceData
        } else if str_eq(s, "CONFERENCE_DATA_QUERY") {
            Event::ConferenceDataQuery
        } else if str_eq(s, "CUSTOM") {
            Event::Custom
        } else if str_eq(s, "DEL_SCHEDULE") {
            Event::DelSchedule
        } else if str_eq(s, "DETECTED_SPEECH") {
            Event::DetectedSpeech
        } else if str_eq(s, "DETECTED_TONE") {
            Event::DetectedTone
        } else if str_eq(s, "DEVICE_STATE") {
            Event::DeviceState
        } else if str_eq(s, "DTMF") {
            Event::Dtmf
        } else if str_eq(s, "EXE_SCHEDULE") {
            Event::ExeSchedule
        } else if str_eq(s, "FAILURE") {
            Event::Failure
        } else if str_eq(s, "GENERAL") {
            Event::General
        } else if str_eq(s, "HEARTBEAT") {
            Event::Heartbeat
        } else if str_eq(s, "LOG") {
            Event::Log
        } else if str_eq(s, "MEDIA_BUG_START") {
            Event::MediaBugStart
        } else if str_eq(s, "MEDIA_BUG_STOP") {
            Event::MediaBugStop
        } else if str_eq(s, "MESSAGE") {
            Event::Message
        } else if str_eq(s, "MESSAGE_QUERY") {
            Event::MessageQuery
        } else if str_eq(s, "MESSAGE_WAITING") {
            Event::MessageWaiting
        } else if str_eq(s, "MODULE_LOAD") {
            Event::ModuleLoad
        } else if str_eq(s, "MODULE_UNLOAD") {
            Event::ModuleUnload
        } else if str_eq(s, "NAT") {
            Event::Nat
        } else if str_eq(s, "NOTALK") {
            Event::Notalk
        } else if str_eq(s, "NOTIFY") {
            Event::Notify
        } else if str_eq(s, "NOTIFY_IN") {
            Event::NotifyIn
        } else if str_eq(s, "PHONE_FEATURE") {
            Event::PhoneFeature
        } else if str_eq(s, "PHONE_FEATURE_SUBSCRIBE") {
            Event::PhoneFeatureSubscribe
        } else if str_eq(s, "PLAYBACK_START") {
            Event::PlaybackStart
        } else if str_eq(s, "PLAYBACK_STOP") {
            Event::PlaybackStop
        } else if str_eq(s, "PRESENCE_IN") {
            Event::PresenceIn
        } else if str_eq(s, "PRESENCE_OUT") {
            Event::PresenceOut
        } else if str_eq(s, "PRESENCE_PROBE") {
            Event::PresenceProbe
        } else if str_eq(s, "PRIVATE_COMMAND") {
            Event::PrivateCommand
        } else if str_eq(s, "PUBLISH") {
            Event::Publish
        } else if str_eq(s, "QUEUE_LEN") {
            Event::QueueLen
        } else if str_eq(s, "RECORD_START") {
            Event::RecordStart
        } else if str_eq(s, "RECORD_STOP") {
            Event::RecordStop
        } else if str_eq(s, "RECV_INFO") {
            Event::RecvInfo
        } else if str_eq(s, "RECV_MESSAGE") {
            Event::RecvMessage
        } else if str_eq(s, "RECV_RTCP_MESSAGE") {
            Event::RecvRtcpMessage
        } else if str_eq(s, "RECYCLE") {
            Event::Recycle
        } else if str_eq(s, "RELOADXML") {
            Event::ReloadXml
        } else if str_eq(s, "REQUEST_PARAMS") {
            Event::RequestParams
        } else if str_eq(s, "RE_SCHEDULE") {
            Event::ReSchedule
        } else if str_eq(s, "ROSTER") {
            Event::Roster
        } else if str_eq(s, "SEND_INFO") {
            Event::SendInfo
        } else if str_eq(s, "SEND_MESSAGE") {
            Event::SendMessage
        } else if str_eq(s, "SESSION_HEARTBEAT") {
            Event::SessionHeartbeat
        } else if str_eq(s, "SHUTDOWN") {
            Event::Shutdown
        } else if str_eq(s, "STARTUP") {
            Event::Startup
        } else if str_eq(s, "SUBCLASS_ANY") {
            Event::SubclassAny
        } else if str_eq(s, "TALK") {
            Event::Talk
        } else if str_eq(s, "TRAP") {
            Event::Trap
        } else if str_eq(s, "UNPUBLISH") {
            Event::Unpublish
        } else {
            Event::NoneEvent
        }
    }

    /// The canonical wire string of this event.
    pub fn to_string(&self) -> (r: String)
        ensures
            r@ == spec_event_name(*self),
    {
        match self {
            Event::AddSchedule => String::from_str("ADD_SCHEDULE"),
            Event::Api => String::from_str("API"),
            Event::BackgroundJob => String::from_str("BACKGROUND_JOB"),
            Event::CallDetail => String::from_str("CALL_DETAIL"),
            Event::CallSecure => String::from_str("CALL_SECURE"),
            Event::CallSetupReq => String::from_str("CALL_SETUP_REQ"),
            Event::CallUpdate => String::from_str("CALL_UPDATE"),
            Event::Cdr => String::from_str("CDR"),
            Event::ChannelAnswer => String::from_str("CHANNEL_ANSWER"),
            Event::ChannelApplication => String::from_str("CHANNEL_APPLICATION"),
            Event::ChannelBridge => String::from_str("CHANNEL_BRIDGE"),
            Event::ChannelCallState => String::from_str("CHANNEL_CALLSTATE"),
            Event::ChannelCreate => String::from_str("CHANNEL_CREATE"),
            Event::ChannelData => String::from_str("CHANNEL_DATA"),
            Event::ChannelDestroy => String::from_str("CHANNEL_DESTROY"),
            Event::ChannelExecute => String::from_str("CHANNEL_EXECUTE"),
            Event::ChannelExecuteComplete => String::from_str("CHANNEL_EXECUTE_COMPLETE"),
            Event::ChannelGlobal => String::from_str("CHANNEL_GLOBAL"),
            Event::ChannelHangup => String::from_str("CHANNEL_HANGUP"),
            Event::ChannelHangupComplete => String::from_str("CHANNEL_HANGUP_COMPLETE"),
            Event::ChannelHold => String::from_str("CHANNEL_HOLD"),
            Event::ChannelOriginate => String::from_str("CHANNEL_ORIGINATE"),
            Event::ChannelOutgoing => String::from_str("CHANNEL_OUTGOING"),
            Event::ChannelPark => String::from_str("CHANNEL_PARK"),
            Event::ChannelProgress => String::from_str("CHANNEL_PROGRESS"),
            Event::ChannelProgressMedia => String::from_str("CHANNEL_PROGRESS_MEDIA"),
            Event::ChannelState => String::from_str("CHANNEL_STATE"),
            Event::ChannelUnbridge => String::from_str("CHANNEL_UNBRIDGE"),
            Event::ChannelUnhold => String::from_str("CHANNEL_UNHOLD"),
            Event::ChannelUnpark => String::from_str("CHANNEL_UNPARK"),
            Event::ChannelUuid => String::from_str("CHANNEL_UUID"),
            Event::Clone => String::from_str("CLONE"),
            Event::Codec => String::from_str("CODEC"),
            Event::Command => String::from_str("COMMAND"),
            Event::ConferenceData => String::from_str("CONFERENCE_DATA"),
            Event::ConferenceDataQuery => String::from_str("CONFERENCE_DATA_QUERY"),
            Event::Custom => String::from_str("CUSTOM"),
            Event::DelSchedule => String::from_str("DEL_SCHEDULE"),
            Event::DetectedSpeech => String::from_str("DETECTED_SPEECH"),
            Event::DetectedTone => String::from_str("DETECTED_TONE"),
            Event::DeviceState => String::from_str("DEVICE_STATE"),
            Event::Dtmf => String::from_str("DTMF"),
            Event::ExeSchedule => String::from_str("EXE_SCHEDULE"),
            Event::Failure => String::from_str("FAILURE"),
            Event::General => String::from_str("GENERAL"),
            Event::Heartbeat => String::from_str("HEARTBEAT"),
            Event::Log => String::from_str("LOG"),
            Event::MediaBugStart => String::from_str("MEDIA_BUG_START"),
            Event::MediaBugStop => String::from_str("MEDIA_BUG_STOP"),
            Event::Message => String::from_str("MESSAGE"),
            Event::MessageQuery => String::from_str("MESSAGE_QUERY"),
            Event::MessageWaiting => String::from_str("MESSAGE_WAITING"),
            Event::ModuleLoad => String::from_str("MODULE_LOAD"),
            Event::ModuleUnload => String::from_str("MODULE_UNLOAD"),
            Event::Nat => String::from_str("NAT"),
            Event::Notalk => String::from_str("NOTALK"),
            Event::Notify => String::from_str("NOTIFY"),
            Event::NotifyIn => String::from_str("NOTIFY_IN"),
            Event::PhoneFeature => String::from_str("PHONE_FEATURE"),
            Event::PhoneFeatureSubscribe => String::from_str("PHONE_FEATURE_SUBSCRIBE"),
            Event::PlaybackStart => String::from_str("PLAYBACK_START"),
            Event::PlaybackStop => String::from_str("PLAYBACK_STOP"),
            Event::PresenceIn => String::from_str("PRESENCE_IN"),
            Event::PresenceOut => String::from_str("PRESENCE_OUT"),
            Event::PresenceProbe => String::from_str("PRESENCE_PROBE"),
            Event::PrivateCommand => String::from_str("PRIVATE_COMMAND"),
            Event::Publish => String::from_str("PUBLISH"),
            Event::QueueLen => String::from_str("QUEUE_LEN"),
            Event::RecordStart => String::from_str("RECORD_START"),
            Event::RecordStop => String::from_str("RECORD_STOP"),
            Event::RecvInfo => String::from_str("RECV_INFO"),
            Event::RecvMessage => String::from_str("RECV_MESSAGE"),
            Event::RecvRtcpMessage => String::from_str("RECV_RTCP_MESSAGE"),
            Event::Recycle => String::from_str("RECYCLE"),
            Event::ReloadXml => String::from_str("RELOADXML"),
            Event::RequestParams => String::from_str("REQUEST_PARAMS"),
            Event::ReSchedule => String::from_str("RE_SCHEDULE"),
            Event::Roster => String::from_str("ROSTER"),
            Event::SendInfo => String::from_str("SEND_INFO"),
            Event::SendMessage => String::from_str("SEND_MESSAGE"),
            Event::SessionHeartbeat => String::from_str("SESSION_HEARTBEAT"),
            Event::Shutdown => String::from_str("SHUTDOWN"),
            Event::Startup => String::from_str("STARTUP"),
            Event::SubclassAny => String::from_str("SUBCLASS_ANY"),
            Event::Talk => String::from_str("TALK"),
            Event::Trap => String::from_str("TRAP"),
            Event::Unpublish => String::from_str("UNPUBLISH"),
            Event::NoneEvent => String::from_str("Invalid Event"),
        }
    }
}

impl From<String> for Event {
    /// Decode an owned wire string, falling back to the sentinel `NoneEvent`.
    fn from(value: String) -> (r: Event) {
        Event::from_name(value.as_str())
    }
}

impl vstd::std_specs::convert::FromSpecImpl<String> for Event {
    open spec fn obeys_from_spec() -> bool {
        true
    }

    open spec fn from_spec(v: String) -> Event {
        spec_event_of(v@)
    }
}

/// Decoding the canonical wire string of an event yields the event again,
/// for every variant of the enumeration, the sentinel included.
#[verifier::rlimit(100)]
pub proof fn lemma_event_round_trip(e: Event)
    ensures
        spec_event_of(spec_event_name(e)) == e,
{
    reveal_strlit("ADD_SCHEDULE");
    reveal_strlit("API");
    reveal_strlit("BACKGROUND_JOB");
    reveal_strlit("CALL_DETAIL");
    reveal_strlit("CALL_SECURE");
    reveal_strlit("CALL_SETUP_REQ");
    reveal_strlit("CALL_UPDATE");
    reveal_strlit("CDR");
    reveal_strlit("CHANNEL_ANSWER");
    reveal_strlit("CHANNEL_APPLICATION");
    reveal_strlit("CHANNEL_BRIDGE");
    reveal_strlit("CHANNEL_CALLSTATE");
    reveal_strlit("CHANNEL_CREATE");
    reveal_strlit("CHANNEL_DATA");
    reveal_strlit("CHANNEL_DESTROY");
    reveal_strlit("CHANNEL_EXECUTE");
    reveal_strlit("CHANNEL_EXECUTE_COMPLETE");
    reveal_strlit("CHANNEL_GLOBAL");
    reveal_strlit("CHANNEL_HANGUP");
    reveal_strlit("CHANNEL_HANGUP_COMPLETE");
    reveal_strlit("CHANNEL_HOLD");
    reveal_strlit("CHANNEL_ORIGINATE");
    reveal_strlit("CHANNEL_OUTGOING");
    reveal_strlit("CHANNEL_PARK");
    reveal_strlit("CHANNEL_PROGRESS");
    reveal_strlit("CHANNEL_PROGRESS_MEDIA");
    reveal_strlit("CHANNEL_STATE");
    reveal_strlit("CHANNEL_UNBRIDGE");
    reveal_strlit("CHANNEL_UNHOLD");
    reveal_strlit("CHANNEL_UNPARK");
    reveal_strlit("CHANNEL_UUID");
    reveal_strlit("CLONE");
    reveal_strlit("CODEC");
    reveal_strlit("COMMAND");
    reveal_strlit("CONFERENCE_DATA");
    reveal_strlit("CONFERENCE_DATA_QUERY");
    reveal_strlit("CUSTOM");
    reveal_strlit("DEL_SCHEDULE");
    reveal_strlit("DETECTED_SPEECH");
    reveal_strlit("DETECTED_TONE");
    reveal_strlit("DEVICE_STATE");
    reveal_strlit("DTMF");
    reveal_strlit("EXE_SCHEDULE");
    reveal_strlit("FAILURE");
    reveal_strlit("GENERAL");
    reveal_strlit("HEARTBEAT");
    reveal_strlit("LOG");
    reveal_strlit("MEDIA_BUG_START");
    reveal_strlit("MEDIA_BUG_STOP");
    reveal_strlit("MESSAGE");
    reveal_strlit("MESSAGE_QUERY");
    reveal_strlit("MESSAGE_WAITING");
    reveal_strlit("MODULE_LOAD");
    reveal_strlit("MODULE_UNLOAD");
    reveal_strlit("NAT");
    reveal_strlit("NOTALK");
    reveal_strlit("NOTIFY");
    reveal_strlit("NOTIFY_IN");
    reveal_strlit("PHONE_FEATURE");
    reveal_strlit("PHONE_FEATURE_SUBSCRIBE");
    reveal_strlit("PLAYBACK_START");
    reveal_strlit("PLAYBACK_STOP");
    reveal_strlit("PRESENCE_IN");
    reveal_strlit("PRESENCE_OUT");
    reveal_strlit("PRESENCE_PROBE");
    reveal_strlit("PRIVATE_COMMAND");
    reveal_strlit("PUBLISH");
    reveal_strlit("QUEUE_LEN");
    reveal_strlit("RECORD_START");
    reveal_strlit("RECORD_STOP");
    reveal_strlit("RECV_INFO");
    reveal_strlit("RECV_MESSAGE");
    reveal_strlit("RECV_RTCP_MESSAGE");
    reveal_strlit("RECYCLE");
    reveal_strlit("RELOADXML");
    reveal_strlit("REQUEST_PARAMS");
    reveal_strlit("RE_SCHEDULE");
    reveal_strlit("ROSTER");
    reveal_strlit("SEND_INFO");
    reveal_strlit("SEND_MESSAGE");
    reveal_strlit("SESSION_HEARTBEAT");
    reveal_strlit("SHUTDOWN");
    reveal_strlit("STARTUP");
    reveal_strlit("SUBCLASS_ANY");
    reveal_strlit("TALK");
    reveal_strlit("TRAP");
    reveal_strlit("UNPUBLISH");
    reveal_strlit("Invalid Event");
    assert(("ADD_SCHEDULE")@.len() == 12);
    assert(("API")@.len() == 3);
    assert(("BACKGROUND_JOB")@.len() == 14);
    assert(("CALL_DETAIL")@.len() == 11);
    assert(("CALL_SECURE")@.len() == 11);
    assert(("CALL_SETUP_REQ")@.len() == 14);
    assert(("CALL_UPDATE")@.len() == 11);
    assert(("CDR")@.len() == 3);
    assert(("CHANNEL_ANSWER")@.len() == 14);
    assert(("CHANNEL_APPLICATION")@.len() == 19);
    assert(("CHANNEL_BRIDGE")@.len() == 14);
    assert(("CHANNEL_CALLSTATE")@.len() == 17);
    assert(("CHANNEL_CREATE")@.len() == 14);
    assert(("CHANNEL_DATA")@.len() == 12);
    assert(("CHANNEL_DESTROY")@.len() == 15);
    assert(("CHANNEL_EXECUTE")@.len() == 15);
    assert(("CHANNEL_EXECUTE_COMPLETE")@.len() == 24);
    assert(("CHANNEL_GLOBAL")@.len() == 14);
    assert(("CHANNEL_HANGUP")@.len() == 14);
    assert(("CHANNEL_HANGUP_COMPLETE")@.len() == 23);
    assert(("CHANNEL_HOLD")@.len() == 12);
    assert(("CHANNEL_ORIGINATE")@.len() == 17);
    assert(("CHANNEL_OUTGOING")@.len() == 16);
    assert(("CHANNEL_PARK")@.len() == 12);
    assert(("CHANNEL_PROGRESS")@.len() == 16);
    assert(("CHANNEL_PROGRESS_MEDIA")@.len() == 22);
    assert(("CHANNEL_STATE")@.len() == 13);
    assert(("CHANNEL_UNBRIDGE")@.len() == 16);
    assert(("CHANNEL_UNHOLD")@.len() == 14);
    assert(("CHANNEL_UNPARK")@.len() == 14);
    assert(("CHANNEL_UUID")@.len() == 12);
    assert(("CLONE")@.len() == 5);
    assert(("CODEC")@.len() == 5);
    assert(("COMMAND")@.len() == 7);
    assert(("CONFERENCE_DATA")@.len() == 15);
    assert(("CONFERENCE_DATA_QUERY")@.len() == 21);
    assert(("CUSTOM")@.len() == 6);
    assert(("DEL_SCHEDULE")@.len() == 12);
    assert(("DETECTED_SPEECH")@.len() == 15);
    assert(("DETECTED_TONE")@.len() == 13);
    assert(("DEVICE_STATE")@.len() == 12);
    assert(("DTMF")@.len() == 4);
    assert(("EXE_SCHEDULE")@.len() == 12);
    assert(("FAILURE")@.len() == 7);
    assert(("GENERAL")@.len() == 7);
    assert(("HEARTBEAT")@.len() == 9);
    assert(("LOG")@.len() == 3);
    assert(("MEDIA_BUG_START")@.len() == 15);
    assert(("MEDIA_BUG_STOP")@.len() == 14);
    assert(("MESSAGE")@.len() == 7);
    assert(("MESSAGE_QUERY")@.len() == 13);
    assert(("MESSAGE_WAITING")@.len() == 15);
    assert(("MODULE_LOAD")@.len() == 11);
    assert(("MODULE_UNLOAD")@.len() == 13);
    assert(("NAT")@.len() == 3);
    assert(("NOTALK")@.len() == 6);
    assert(("NOTIFY")@.len() == 6);
    assert(("NOTIFY_IN")@.len() == 9);
    assert(("PHONE_FEATURE")@.len() == 13);
    assert(("PHONE_FEATURE_SUBSCRIBE")@.len() == 23);
    assert(("PLAYBACK_START")@.len() == 14);
    assert(("PLAYBACK_STOP")@.len() == 13);
    assert(("PRESENCE_IN")@.len() == 11);
    assert(("PRESENCE_OUT")@.len() == 12);
    assert(("PRESENCE_PROBE")@.len() == 14);
    assert(("PRIVATE_COMMAND")@.len() == 15);
    assert(("PUBLISH")@.len() == 7);
    assert(("QUEUE_LEN")@.len() == 9);
    assert(("RECORD_START")@.len() == 12);
    assert(("RECORD_STOP")@.len() == 11);
    assert(("RECV_INFO")@.len() == 9);
    assert(("RECV_MESSAGE")@.len() == 12);
    assert(("RECV_RTCP_MESSAGE")@.len() == 17);
    assert(("RECYCLE")@.len() == 7);
    assert(("RELOADXML")@.len() == 9);
    assert(("REQUEST_PARAMS")@.len() == 14);
    assert(("RE_SCHEDULE")@.len() == 11);
    assert(("ROSTER")@.len() == 6);
    assert(("SEND_INFO")@.len() == 9);
    assert(("SEND_MESSAGE")@.len() == 12);
    assert(("SESSION_HEARTBEAT")@.len() == 17);
    assert(("SHUTDOWN")@.len() == 8);
    assert(("STARTUP")@.len() == 7);
    assert(("SUBCLASS_ANY")@.len() == 12);
    assert(("TALK")@.len() == 4);
    assert(("TRAP")@.len() == 4);
    assert(("UNPUBLISH")@.len() == 9);
    assert(("Invalid Event")@.len() == 13);
    match e {
        Event::AddSchedule => {
            assert(spec_event_of(("ADD_SCHEDULE")@) == Event::AddSchedule);
        },
        Event::Api => {
            assert(spec_event_of(("API")@) == Event::Api);
        },
        Event::BackgroundJob => {
            assert(spec_event_of(("BACKGROUND_JOB")@) == Event::BackgroundJob);
        },
        Event::CallDetail => {
            assert(spec_event_of(("CALL_DETAIL")@) == Event::CallDetail);
        },
        Event::CallSecure => {
            assert(("CALL_DETAIL")@ != ("CALL_SECURE")@) by {
                assert(("CALL_DETAIL")@[5] != ("CALL_SECURE")@[5]);
            }
            assert(spec_event_of(("CALL_SECURE")@) == Event::CallSecure);
        },
        Event::CallSetupReq => {
            assert(("BACKGROUND_JOB")@ != ("CALL_SETUP_REQ")@) by {
                assert(("BACKGROUND_JOB")@[0] != ("CALL_SETUP_REQ")@[0]);
            }
            assert(spec_event_of(("CALL_SETUP_REQ")@) == Event::CallSetupReq);
        },
        Event::CallUpdate => {
            assert(("CALL_DETAIL")@ != ("CALL_UPDATE")@) by {
                assert(("CALL_DETAIL")@[5] != ("CALL_UPDATE")@[5]);
            }
            assert(("CALL_SECURE")@ != ("CALL_UPDATE")@) by {
                assert(("CALL_SECURE")@[5] != ("CALL_UPDATE")@[5]);
            }
            assert(spec_event_of(("CALL_UPDATE")@) == Event::CallUpdate);
        },
        Event::Cdr => {
            assert(("API")@ != ("CDR")@) by {
                assert(("API")@[0] != ("CDR")@[0]);
            }
            assert(spec_event_of(("CDR")@) == Event::Cdr);
        },
        Event::ChannelAnswer => {
            assert(("BACKGROUND_JOB")@ != ("CHANNEL_ANSWER")@) by {
                assert(("BACKGROUND_JOB")@[0] != ("CHANNEL_ANSWER")@[0]);
            }
            assert(("CALL_SETUP_REQ")@ != ("CHANNEL_ANSWER")@) by {
                assert(("CALL_SETUP_REQ")@[1] != ("CHANNEL_ANSWER")@[1]);
            }
            assert(spec_event_of(("CHANNEL_ANSWER")@) == Event::ChannelAnswer);
        },
        Event::ChannelApplication => {
            assert(spec_event_of(("CHANNEL_APPLICATION")@) == Event::ChannelApplication);
        },
        Event::ChannelBridge => {
            assert(("BACKGROUND_JOB")@ != ("CHANNEL_BRIDGE")@) by {
                assert(("BACKGROUND_JOB")@[0] != ("CHANNEL_BRIDGE")@[0]);
            }
            assert(("CALL_SETUP_REQ")@ != ("CHANNEL_BRIDGE")@) by {
                assert(("CALL_SETUP_REQ")@[1] != ("CHANNEL_BRIDGE")@[1]);
            }
            assert(("CHANNEL_ANSWER")@ != ("CHANNEL_BRIDGE")@) by {
                assert(("CHANNEL_ANSWER")@[8] != ("CHANNEL_BRIDGE")@[8]);
            }
            assert(spec_event_of(("CHANNEL_BRIDGE")@) == Event::ChannelBridge);
        },
        Event::ChannelCallState => {
            assert(spec_event_of(("CHANNEL_CALLSTATE")@) == Event::ChannelCallState);
        },
        Event::ChannelCreate => {
            assert(("BACKGROUND_JOB")@ != ("CHANNEL_CREATE")@) by {
                assert(("BACKGROUND_JOB")@[0] != ("CHANNEL_CREATE")@[0]);
            }
            assert(("CALL_SETUP_REQ")@ != ("CHANNEL_CREATE")@) by {
                assert(("CALL_SETUP_REQ")@[1] != ("CHANNEL_CREATE")@[1]);
            }
            assert(("CHANNEL_ANSWER")@ != ("CHANNEL_CREATE")@) by {
                assert(("CHANNEL_ANSWER")@[8] != ("CHANNEL_CREATE")@[8]);
            }
            assert(("CHANNEL_BRIDGE")@ != ("CHANNEL_CREATE")@) by {
                assert(("CHANNEL_BRIDGE")@[8] != ("CHANNEL_CREATE")@[8]);
            }
            assert(spec_event_of(("CHANNEL_CREATE")@) == Event::ChannelCreate);
        },
        Event::ChannelData => {
            assert(("ADD_SCHEDULE")@ != ("CHANNEL_DATA")@) by {
                assert(("ADD_SCHEDULE")@[0] != ("CHANNEL_DATA")@[0]);
            }
            assert(spec_event_of(("CHANNEL_DATA")@) == Event::ChannelData);
        },
        Event::ChannelDestroy => {
            assert(spec_event_of(("CHANNEL_DESTROY")@) == Event::ChannelDestroy);
        },
        Event::ChannelExecute => {
            assert(("CHANNEL_DESTROY")@ != ("CHANNEL_EXECUTE")@) by {
                assert(("CHANNEL_DESTROY")@[8] != ("CHANNEL_EXECUTE")@[8]);
            }
            assert(spec_event_of(("CHANNEL_EXECUTE")@) == Event::ChannelExecute);
        },
        Event::ChannelExecuteComplete => {
            assert(spec_event_of(("CHANNEL_EXECUTE_COMPLETE")@) == Event::ChannelExecuteComplete);
        },
        Event::ChannelGlobal => {
            assert(("BACKGROUND_JOB")@ != ("CHANNEL_GLOBAL")@) by {
                assert(("BACKGROUND_JOB")@[0] != ("CHANNEL_GLOBAL")@[0]);
            }
            assert(("CALL_SETUP_REQ")@ != ("CHANNEL_GLOBAL")@) by {
                assert(("CALL_SETUP_REQ")@[1] != ("CHANNEL_GLOBAL")@[1]);
            }
            assert(("CHANNEL_ANSWER")@ != ("CHANNEL_GLOBAL")@) by {
                assert(("CHANNEL_ANSWER")@[8] != ("CHANNEL_GLOBAL")@[8]);
            }
            assert(("CHANNEL_BRIDGE")@ != ("CHANNEL_GLOBAL")@) by {
                assert(("CHANNEL_BRIDGE")@[8] != ("CHANNEL_GLOBAL")@[8]);
            }
            assert(("CHANNEL_CREATE")@ != ("CHANNEL_GLOBAL")@) by {
                assert(("CHANNEL_CREATE")@[8] != ("CHANNEL_GLOBAL")@[8]);
            }
            assert(spec_event_of(("CHANNEL_GLOBAL")@) == Event::ChannelGlobal);
        },
        Event::ChannelHangup => {
            assert(("BACKGROUND_JOB")@ != ("CHANNEL_HANGUP")@) by {
                assert(("BACKGROUND_JOB")@[0] != ("CHANNEL_HANGUP")@[0]);
            }
            assert(("CALL_SETUP_REQ")@ != ("CHANNEL_HANGUP")@) by {
                assert(("CALL_SETUP_REQ")@[1] != ("CHANNEL_HANGUP")@[1]);
            }
            assert(("CHANNEL_ANSWER")@ != ("CHANNEL_HANGUP")@) by {
                assert(("CHANNEL_ANSWER")@[8] != ("CHANNEL_HANGUP")@[8]);
            }
            assert(("CHANNEL_BRIDGE")@ != ("CHANNEL_HANGUP")@) by {
                assert(("CHANNEL_BRIDGE")@[8] != ("CHANNEL_HANGUP")@[8]);
            }
            assert(("CHANNEL_CREATE")@ != ("CHANNEL_HANGUP")@) by {
                assert(("CHANNEL_CREATE")@[8] != ("CHANNEL_HANGUP")@[8]);
            }
            assert(("CHANNEL_GLOBAL")@ != ("CHANNEL_HANGUP")@) by {
                assert(("CHANNEL_GLOBAL")@[8] != ("CHANNEL_HANGUP")@[8]);
            }
            assert(spec_event_of(("CHANNEL_HANGUP")@) == Event::ChannelHangup);
        },
        Event::ChannelHangupComplete => {
            assert(spec_event_of(("CHANNEL_HANGUP_COMPLETE")@) == Event::ChannelHangupComplete);
        },
        Event::ChannelHold => {
            assert(("ADD_SCHEDULE")@ != ("CHANNEL_HOLD")@) by {
                assert(("ADD_SCHEDULE")@[0] != ("CHANNEL_HOLD")@[0]);
            }
            assert(("CHANNEL_DATA")@ != ("CHANNEL_HOLD")@) by {
                assert(("CHANNEL_DATA")@[8] != ("CHANNEL_HOLD")@[8]);
            }
            assert(spec_event_of(("CHANNEL_HOLD")@) == Event::ChannelHold);
        },
        Event::ChannelOriginate => {
            assert(("CHANNEL_CALLSTATE")@ != ("CHANNEL_ORIGINATE")@) by {
                assert(("CHANNEL_CALLSTATE")@[8] != ("CHANNEL_ORIGINATE")@[8]);
            }
            assert(spec_event_of(("CHANNEL_ORIGINATE")@) == Event::ChannelOriginate);
        },
        Event::ChannelOutgoing => {
            assert(spec_event_of(("CHANNEL_OUTGOING")@) == Event::ChannelOutgoing);
        },
        Event::ChannelPark => {
            assert(("ADD_SCHEDULE")@ != ("CHANNEL_PARK")@) by {
                assert(("ADD_SCHEDULE")@[0] != ("CHANNEL_PARK")@[0]);
            }
            assert(("CHANNEL_DATA")@ != ("CHANNEL_PARK")@) by {
                assert(("CHANNEL_DATA")@[8] != ("CHANNEL_PARK")@[8]);
            }
            assert(("CHANNEL_HOLD")@ != ("CHANNEL_PARK")@) by {
                assert(("CHANNEL_HOLD")@[8] != ("CHANNEL_PARK")@[8]);
            }
            assert(spec_event_of(("CHANNEL_PARK")@) == Event::ChannelPark);
        },
        Event::ChannelProgress => {
            assert(("CHANNEL_OUTGOING")@ != ("CHANNEL_PROGRESS")@) by {
                assert(("CHANNEL_OUTGOING")@[8] != ("CHANNEL_PROGRESS")@[8]);
            }
            assert(spec_event_of(("CHANNEL_PROGRESS")@) == Event::ChannelProgress);
        },
        Event::ChannelProgressMedia => {
            assert(spec_event_of(("CHANNEL_PROGRESS_MEDIA")@) == Event::ChannelProgressMedia);
        },
        Event::ChannelState => {
            assert(spec_event_of(("CHANNEL_STATE")@) == Event::ChannelState);
        },
        Event::ChannelUnbridge => {
            assert(("CHANNEL_OUTGOING")@ != ("CHANNEL_UNBRIDGE")@) by {
                assert(("CHANNEL_OUTGOING")@[8] != ("CHANNEL_UNBRIDGE")@[8]);
            }
            assert(("CHANNEL_PROGRESS")@ != ("CHANNEL_UNBRIDGE")@) by {
                assert(("CHANNEL_PROGRESS")@[8] != ("CHANNEL_UNBRIDGE")@[8]);
            }
            assert(spec_event_of(("CHANNEL_UNBRIDGE")@) == Event::ChannelUnbridge);
        },
        Event::ChannelUnhold => {
            assert(("BACKGROUND_JOB")@ != ("CHANNEL_UNHOLD")@) by {
                assert(("BACKGROUND_JOB")@[0] != ("CHANNEL_UNHOLD")@[0]);
            }
            assert(("CALL_SETUP_REQ")@ != ("CHANNEL_UNHOLD")@) by {
                assert(("CALL_SETUP_REQ")@[1] != ("CHANNEL_UNHOLD")@[1]);
            }
            assert(("CHANNEL_ANSWER")@ != ("CHANNEL_UNHOLD")@) by {
                assert(("CHANNEL_ANSWER")@[8] != ("CHANNEL_UNHOLD")@[8]);
            }
            assert(("CHANNEL_BRIDGE")@ != ("CHANNEL_UNHOLD")@) by {
                assert(("CHANNEL_BRIDGE")@[8] != ("CHANNEL_UNHOLD")@[8]);
            }
            assert(("CHANNEL_CREATE")@ != ("CHANNEL_UNHOLD")@) by {
                assert(("CHANNEL_CREATE")@[8] != ("CHANNEL_UNHOLD")@[8]);
            }
            assert(("CHANNEL_GLOBAL")@ != ("CHANNEL_UNHOLD")@) by {
                assert(("CHANNEL_GLOBAL")@[8] != ("CHANNEL_UNHOLD")@[8]);
            }
            assert(("CHANNEL_HANGUP")@ != ("CHANNEL_UNHOLD")@) by {
                assert(("CHANNEL_HANGUP")@[8] != ("CHANNEL_UNHOLD")@[8]);
            }
            assert(spec_event_of(("CHANNEL_UNHOLD")@) == Event::ChannelUnhold);
        },
        Event::ChannelUnpark => {
            assert(("BACKGROUND_JOB")@ != ("CHANNEL_UNPARK")@) by {
                assert(("BACKGROUND_JOB")@[0] != ("CHANNEL_UNPARK")@[0]);
            }
            assert(("CALL_SETUP_REQ")@ != ("CHANNEL_UNPARK")@) by {
                assert(("CALL_SETUP_REQ")@[1] != ("CHANNEL_UNPARK")@[1]);
            }
            assert(("CHANNEL_ANSWER")@ != ("CHANNEL_UNPARK")@) by {
                assert(("CHANNEL_ANSWER")@[8] != ("CHANNEL_UNPARK")@[8]);
            }
            assert(("CHANNEL_BRIDGE")@ != ("CHANNEL_UNPARK")@) by {
                assert(("CHANNEL_BRIDGE")@[8] != ("CHANNEL_UNPARK")@[8]);
            }
            assert(("CHANNEL_CREATE")@ != ("CHANNEL_UNPARK")@) by {
                assert(("CHANNEL_CREATE")@[8] != ("CHANNEL_UNPARK")@[8]);
            }
            assert(("CHANNEL_GLOBAL")@ != ("CHANNEL_UNPARK")@) by {
                assert(("CHANNEL_GLOBAL")@[8] != ("CHANNEL_UNPARK")@[8]);
            }
            assert(("CHANNEL_HANGUP")@ != ("CHANNEL_UNPARK")@) by {
                assert(("CHANNEL_HANGUP")@[8] != ("CHANNEL_UNPARK")@[8]);
            }
            assert(("CHANNEL_UNHOLD")@ != ("CHANNEL_UNPARK")@) by {
                assert(("CHANNEL_UNHOLD")@[10] != ("CHANNEL_UNPARK")@[10]);
            }
            assert(spec_event_of(("CHANNEL_UNPARK")@) == Event::ChannelUnpark);
        },
        Event::ChannelUuid => {
            assert(("ADD_SCHEDULE")@ != ("CHANNEL_UUID")@) by {
                assert(("ADD_SCHEDULE")@[0] != ("CHANNEL_UUID")@[0]);
            }
            assert(("CHANNEL_DATA")@ != ("CHANNEL_UUID")@) by {
                assert(("CHANNEL_DATA")@[8] != ("CHANNEL_UUID")@[8]);
            }
            assert(("CHANNEL_HOLD")@ != ("CHANNEL_UUID")@) by {
                assert(("CHANNEL_HOLD")@[8] != ("CHANNEL_UUID")@[8]);
            }
            assert(("CHANNEL_PARK")@ != ("CHANNEL_UUID")@) by {
                assert(("CHANNEL_PARK")@[8] != ("CHANNEL_UUID")@[8]);
            }
            assert(spec_event_of(("CHANNEL_UUID")@) == Event::ChannelUuid);
        },
        Event::Clone => {
            assert(spec_event_of(("CLONE")@) == Event::Clone);
        },
        Event::Codec => {
            assert(("CLONE")@ != ("CODEC")@) by {
                assert(("CLONE")@[1] != ("CODEC")@[1]);
            }
            assert(spec_event_of(("CODEC")@) == Event::Codec);
        },
        Event::Command => {
            assert(spec_event_of(("COMMAND")@) == Event::Command);
        },
        Event::ConferenceData => {
            assert(("CHANNEL_DESTROY")@ != ("CONFERENCE_DATA")@) by {
                assert(("CHANNEL_DESTROY")@[1] != ("CONFERENCE_DATA")@[1]);
            }
            assert(("CHANNEL_EXECUTE")@ != ("CONFERENCE_DATA")@) by {
                assert(("CHANNEL_EXECUTE")@[1] != ("CONFERENCE_DATA")@[1]);
            }
            assert(spec_event_of(("CONFERENCE_DATA")@) == Event::ConferenceData);
        },
        Event::ConferenceDataQuery => {
            assert(spec_event_of(("CONFERENCE_DATA_QUERY")@) == Event::ConferenceDataQuery);
        },
        Event::Custom => {
            assert(spec_event_of(("CUSTOM")@) == Event::Custom);
        },
        Event::DelSchedule => {
            assert(("ADD_SCHEDULE")@ != ("DEL_SCHEDULE")@) by {
                assert(("ADD_SCHEDULE")@[0] != ("DEL_SCHEDULE")@[0]);
            }
            assert(("CHANNEL_DATA")@ != ("DEL_SCHEDULE")@) by {
                assert(("CHANNEL_DATA")@[0] != ("DEL_SCHEDULE")@[0]);
            }
            assert(("CHANNEL_HOLD")@ != ("DEL_SCHEDULE")@) by {
                assert(("CHANNEL_HOLD")@[0] != ("DEL_SCHEDULE")@[0]);
            }
            assert(("CHANNEL_PARK")@ != ("DEL_SCHEDULE")@) by {
                assert(("CHANNEL_PARK")@[0] != ("DEL_SCHEDULE")@[0]);
            }
            assert(("CHANNEL_UUID")@ != ("DEL_SCHEDULE")@) by {
                assert(("CHANNEL_UUID")@[0] != ("DEL_SCHEDULE")@[0]);
            }
            assert(spec_event_of(("DEL_SCHEDULE")@) == Event::DelSchedule);
        },
        Event::DetectedSpeech => {
            assert(("CHANNEL_DESTROY")@ != ("DETECTED_SPEECH")@) by {
                assert(("CHANNEL_DESTROY")@[0] != ("DETECTED_SPEECH")@[0]);
            }
            assert(("CHANNEL_EXECUTE")@ != ("DETECTED_SPEECH")@) by {
                assert(("CHANNEL_EXECUTE")@[0] != ("DETECTED_SPEECH")@[0]);
            }
            assert(("CONFERENCE_DATA")@ != ("DETECTED_SPEECH")@) by {
                assert(("CONFERENCE_DATA")@[0] != ("DETECTED_SPEECH")@[0]);
            }
            assert(spec_event_of(("DETECTED_SPEECH")@) == Event::DetectedSpeech);
        },
        Event::DetectedTone => {
            assert(("CHANNEL_STATE")@ != ("DETECTED_TONE")@) by {
                assert(("CHANNEL_STATE")@[0] != ("DETECTED_TONE")@[0]);
            }
            assert(spec_event_of(("DETECTED_TONE")@) == Event::DetectedTone);
        },
        Event::DeviceState => {
            assert(("ADD_SCHEDULE")@ != ("DEVICE_STATE")@) by {
                assert(("ADD_SCHEDULE")@[0] != ("DEVICE_STATE")@[0]);
            }
            assert(("CHANNEL_DATA")@ != ("DEVICE_STATE")@) by {
                assert(("CHANNEL_DATA")@[0] != ("DEVICE_STATE")@[0]);
            }
            assert(("CHANNEL_HOLD")@ != ("DEVICE_STATE")@) by {
                assert(("CHANNEL_HOLD")@[0] != ("DEVICE_STATE")@[0]);
            }
            assert(("CHANNEL_PARK")@ != ("DEVICE_STATE")@) by {
                assert(("CHANNEL_PARK")@[0] != ("DEVICE_STATE")@[0]);
            }
            assert(("CHANNEL_UUID")@ != ("DEVICE_STATE")@) by {
                assert(("CHANNEL_UUID")@[0] != ("DEVICE_STATE")@[0]);
            }
            assert(("DEL_SCHEDULE")@ != ("DEVICE_STATE")@) by {
                assert(("DEL_SCHEDULE")@[2] != ("DEVICE_STATE")@[2]);
            }
            assert(spec_event_of(("DEVICE_STATE")@) == Event::DeviceState);
        },
        Event::Dtmf => {
            assert(spec_event_of(("DTMF")@) == Event::Dtmf);
        },
        Event::ExeSchedule => {
            assert(("ADD_SCHEDULE")@ != ("EXE_SCHEDULE")@) by {
                assert(("ADD_SCHEDULE")@[0] != ("EXE_SCHEDULE")@[0]);
            }
            assert(("CHANNEL_DATA")@ != ("EXE_SCHEDULE")@) by {
                assert(("CHANNEL_DATA")@[0] != ("EXE_SCHEDULE")@[0]);
            }
            assert(("CHANNEL_HOLD")@ != ("EXE_SCHEDULE")@) by {
                assert(("CHANNEL_HOLD")@[0] != ("EXE_SCHEDULE")@[0]);
            }
            assert(("CHANNEL_PARK")@ != ("EXE_SCHEDULE")@) by {
                assert(("CHANNEL_PARK")@[0] != ("EXE_SCHEDULE")@[0]);
            }
            assert(("CHANNEL_UUID")@ != ("EXE_SCHEDULE")@) by {
                assert(("CHANNEL_UUID")@[0] != ("EXE_SCHEDULE")@[0]);
            }
            assert(("DEL_SCHEDULE")@ != ("EXE_SCHEDULE")@) by {
                assert(("DEL_SCHEDULE")@[0] != ("EXE_SCHEDULE")@[0]);
            }
            assert(("DEVICE_STATE")@ != ("EXE_SCHEDULE")@) by {
                assert(("DEVICE_STATE")@[0] != ("EXE_SCHEDULE")@[0]);
            }
            assert(spec_event_of(("EXE_SCHEDULE")@) == Event::ExeSchedule);
        },
        Event::Failure => {
            assert(("COMMAND")@ != ("FAILURE")@) by {
                assert(("COMMAND")@[0] != ("FAILURE")@[0]);
            }
            assert(spec_event_of(("FAILURE")@) == Event::Failure);
        },
        Event::General => {
            assert(("COMMAND")@ != ("GENERAL")@) by {
                assert(("COMMAND")@[0] != ("GENERAL")@[0]);
            }
            assert(("FAILURE")@ != ("GENERAL")@) by {
                assert(("FAILURE")@[0] != ("GENERAL")@[0]);
            }
            assert(spec_event_of(("GENERAL")@) == Event::General);
        },
        Event::Heartbeat => {
            assert(spec_event_of(("HEARTBEAT")@) == Event::Heartbeat);
        },
        Event::Log => {
            assert(("API")@ != ("LOG")@) by {
                assert(("API")@[0] != ("LOG")@[0]);
            }
            assert(("CDR")@ != ("LOG")@) by {
                assert(("CDR")@[0] != ("LOG")@[0]);
            }
            assert(spec_event_of(("LOG")@) == Event::Log);
        },
        Event::MediaBugStart => {
            assert(("CHANNEL_DESTROY")@ != ("MEDIA_BUG_START")@) by {
                assert(("CHANNEL_DESTROY")@[0] != ("MEDIA_BUG_START")@[0]);
            }
            assert(("CHANNEL_EXECUTE")@ != ("MEDIA_BUG_START")@) by {
                assert(("CHANNEL_EXECUTE")@[0] != ("MEDIA_BUG_START")@[0]);
            }
            assert(("CONFERENCE_DATA")@ != ("MEDIA_BUG_START")@) by {
                assert(("CONFERENCE_DATA")@[0] != ("MEDIA_BUG_START")@[0]);
            }
            assert(("DETECTED_SPEECH")@ != ("MEDIA_BUG_START")@) by {
                assert(("DETECTED_SPEECH")@[0] != ("MEDIA_BUG_START")@[0]);
            }
            assert(spec_event_of(("MEDIA_BUG_START")@) == Event::MediaBugStart);
        },
        Event::MediaBugStop => {
            assert(("BACKGROUND_JOB")@ != ("MEDIA_BUG_STOP")@) by {
                assert(("BACKGROUND_JOB")@[0] != ("MEDIA_BUG_STOP")@[0]);
            }
            assert(("CALL_SETUP_REQ")@ != ("MEDIA_BUG_STOP")@) by {
                assert(("CALL_SETUP_REQ")@[0] != ("MEDIA_BUG_STOP")@[0]);
            }
            assert(("CHANNEL_ANSWER")@ != ("MEDIA_BUG_STOP")@) by {
                assert(("CHANNEL_ANSWER")@[0] != ("MEDIA_BUG_STOP")@[0]);
            }
            assert(("CHANNEL_BRIDGE")@ != ("MEDIA_BUG_STOP")@) by {
                assert(("CHANNEL_BRIDGE")@[0] != ("MEDIA_BUG_STOP")@[0]);
            }
            assert(("CHANNEL_CREATE")@ != ("MEDIA_BUG_STOP")@) by {
                assert(("CHANNEL_CREATE")@[0] != ("MEDIA_BUG_STOP")@[0]);
            }
            assert(("CHANNEL_GLOBAL")@ != ("MEDIA_BUG_STOP")@) by {
                assert(("CHANNEL_GLOBAL")@[0] != ("MEDIA_BUG_STOP")@[0]);
            }
            assert(("CHANNEL_HANGUP")@ != ("MEDIA_BUG_STOP")@) by {
                assert(("CHANNEL_HANGUP")@[0] != ("MEDIA_BUG_STOP")@[0]);
            }
            assert(("CHANNEL_UNHOLD")@ != ("MEDIA_BUG_STOP")@) by {
                assert(("CHANNEL_UNHOLD")@[0] != ("MEDIA_BUG_STOP")@[0]);
            }
            assert(("CHANNEL_UNPARK")@ != ("MEDIA_BUG_STOP")@) by {
                assert(("CHANNEL_UNPARK")@[0] != ("MEDIA_BUG_STOP")@[0]);
            }
            assert(spec_event_of(("MEDIA_BUG_STOP")@) == Event::MediaBugStop);
        },
        Event::Message => {
            assert(("COMMAND")@ != ("MESSAGE")@) by {
                assert(("COMMAND")@[0] != ("MESSAGE")@[0]);
            }
            assert(("FAILURE")@ != ("MESSAGE")@) by {
                assert(("FAILURE")@[0] != ("MESSAGE")@[0]);
            }
            assert(("GENERAL")@ != ("MESSAGE")@) by {
                assert(("GENERAL")@[0] != ("MESSAGE")@[0]);
            }
            assert(spec_event_of(("MESSAGE")@) == Event::Message);
        },
        Event::MessageQuery => {
            assert(("CHANNEL_STATE")@ != ("MESSAGE_QUERY")@) by {
                assert(("CHANNEL_STATE")@[0] != ("MESSAGE_QUERY")@[0]);
            }
            assert(("DETECTED_TONE")@ != ("MESSAGE_QUERY")@) by {
                assert(("DETECTED_TONE")@[0] != ("MESSAGE_QUERY")@[0]);
            }
            assert(spec_event_of(("MESSAGE_QUERY")@) == Event::MessageQuery);
        },
        Event::MessageWaiting => {
            assert(("CHANNEL_DESTROY")@ != ("MESSAGE_WAITING")@) by {
                assert(("CHANNEL_DESTROY")@[0] != ("MESSAGE_WAITING")@[0]);
            }
            assert(("CHANNEL_EXECUTE")@ != ("MESSAGE_WAITING")@) by {
                assert(("CHANNEL_EXECUTE")@[0] != ("MESSAGE_WAITING")@[0]);
            }
            assert(("CONFERENCE_DATA")@ != ("MESSAGE_WAITING")@) by {
                assert(("CONFERENCE_DATA")@[0] != ("MESSAGE_WAITING")@[0]);
            }
            assert(("DETECTED_SPEECH")@ != ("MESSAGE_WAITING")@) by {
                assert(("DETECTED_SPEECH")@[0] != ("MESSAGE_WAITING")@[0]);
            }
            assert(("MEDIA_BUG_START")@ != ("MESSAGE_WAITING")@) by {
                assert(("MEDIA_BUG_START")@[2] != ("MESSAGE_WAITING")@[2]);
            }
            assert(spec_event_of(("MESSAGE_WAITING")@) == Event::MessageWaiting);
        },
        Event::ModuleLoad => {
            assert(("CALL_DETAIL")@ != ("MODULE_LOAD")@) by {
                assert(("CALL_DETAIL")@[0] != ("MODULE_LOAD")@[0]);
            }
            assert(("CALL_SECURE")@ != ("MODULE_LOAD")@) by {
                assert(("CALL_SECURE")@[0] != ("MODULE_LOAD")@[0]);
            }
            assert(("CALL_UPDATE")@ != ("MODULE_LOAD")@) by {
                assert(("CALL_UPDATE")@[0] != ("MODULE_LOAD")@[0]);
            }
            assert(spec_event_of(("MODULE_LOAD")@) == Event::ModuleLoad);
        },
        Event::ModuleUnload => {
            assert(("CHANNEL_STATE")@ != ("MODULE_UNLOAD")@) by {
                assert(("CHANNEL_STATE")@[0] != ("MODULE_UNLOAD")@[0]);
            }
            assert(("DETECTED_TONE")@ != ("MODULE_UNLOAD")@) by {
                assert(("DETECTED_TONE")@[0] != ("MODULE_UNLOAD")@[0]);
            }
            assert(("MESSAGE_QUERY")@ != ("MODULE_UNLOAD")@) by {
                assert(("MESSAGE_QUERY")@[1] != ("MODULE_UNLOAD")@[1]);
            }
            assert(spec_event_of(("MODULE_UNLOAD")@) == Event::ModuleUnload);
        },
        Event::Nat => {
            assert(("API")@ != ("NAT")@) by {
                assert(("API")@[0] != ("NAT")@[0]);
            }
            assert(("CDR")@ != ("NAT")@) by {
                assert(("CDR")@[0] != ("NAT")@[0]);
            }
            assert(("LOG")@ != ("NAT")@) by {
                assert(("LOG")@[0] != ("NAT")@[0]);
            }
            assert(spec_event_of(("NAT")@) == Event::Nat);
        },
        Event::Notalk => {
            assert(("CUSTOM")@ != ("NOTALK")@) by {
                assert(("CUSTOM")@[0] != ("NOTALK")@[0]);
            }
            assert(spec_event_of(("NOTALK")@) == Event::Notalk);
        },
        Event::Notify => {
            assert(("CUSTOM")@ != ("NOTIFY")@) by {
                assert(("CUSTOM")@[0] != ("NOTIFY")@[0]);
            }
            assert(("NOTALK")@ != ("NOTIFY")@) by {
                assert(("NOTALK")@[3] != ("NOTIFY")@[3]);
            }
            assert(spec_event_of(("NOTIFY")@) == Event::Notify);
        },
        Event::NotifyIn => {
            assert(("HEARTBEAT")@ != ("NOTIFY_IN")@) by {
                assert(("HEARTBEAT")@[0] != ("NOTIFY_IN")@[0]);
            }
            assert(spec_event_of(("NOTIFY_IN")@) == Event::NotifyIn);
        },
        Event::PhoneFeature => {
            assert(("CHANNEL_STATE")@ != ("PHONE_FEATURE")@) by {
                assert(("CHANNEL_STATE")@[0] != ("PHONE_FEATURE")@[0]);
            }
            assert(("DETECTED_TONE")@ != ("PHONE_FEATURE")@) by {
                assert(("DETECTED_TONE")@[0] != ("PHONE_FEATURE")@[0]);
            }
            assert(("MESSAGE_QUERY")@ != ("PHONE_FEATURE")@) by {
                assert(("MESSAGE_QUERY")@[0] != ("PHONE_FEATURE")@[0]);
            }
            assert(("MODULE_UNLOAD")@ != ("PHONE_FEATURE")@) by {
                assert(("MODULE_UNLOAD")@[0] != ("PHONE_FEATURE")@[0]);
            }
            assert(spec_event_of(("PHONE_FEATURE")@) == Event::PhoneFeature);
        },
        Event::PhoneFeatureSubscribe => {
            assert(("CHANNEL_HANGUP_COMPLETE")@ != ("PHONE_FEATURE_SUBSCRIBE")@) by {
                assert(("CHANNEL_HANGUP_COMPLETE")@[0] != ("PHONE_FEATURE_SUBSCRIBE")@[0]);
            }
            assert(spec_event_of(("PHONE_FEATURE_SUBSCRIBE")@) == Event::PhoneFeatureSubscribe);
        },
        Event::PlaybackStart => {
            assert(("BACKGROUND_JOB")@ != ("PLAYBACK_START")@) by {
                assert(("BACKGROUND_JOB")@[0] != ("PLAYBACK_START")@[0]);
            }
            assert(("CALL_SETUP_REQ")@ != ("PLAYBACK_START")@) by {
                assert(("CALL_SETUP_REQ")@[0] != ("PLAYBACK_START")@[0]);
            }
            assert(("CHANNEL_ANSWER")@ != ("PLAYBACK_START")@) by {
                assert(("CHANNEL_ANSWER")@[0] != ("PLAYBACK_START")@[0]);
            }
            assert(("CHANNEL_BRIDGE")@ != ("PLAYBACK_START")@) by {
                assert(("CHANNEL_BRIDGE")@[0] != ("PLAYBACK_START")@[0]);
            }
            assert(("CHANNEL_CREATE")@ != ("PLAYBACK_START")@) by {
                assert(("CHANNEL_CREATE")@[0] != ("PLAYBACK_START")@[0]);
            }
            assert(("CHANNEL_GLOBAL")@ != ("PLAYBACK_START")@) by {
                assert(("CHANNEL_GLOBAL")@[0] != ("PLAYBACK_START")@[0]);
            }
            assert(("CHANNEL_HANGUP")@ != ("PLAYBACK_START")@) by {
                assert(("CHANNEL_HANGUP")@[0] != ("PLAYBACK_START")@[0]);
            }
            assert(("CHANNEL_UNHOLD")@ != ("PLAYBACK_START")@) by {
                assert(("CHANNEL_UNHOLD")@[0] != ("PLAYBACK_START")@[0]);
            }
            assert(("CHANNEL_UNPARK")@ != ("PLAYBACK_START")@) by {
                assert(("CHANNEL_UNPARK")@[0] != ("PLAYBACK_START")@[0]);
            }
            assert(("MEDIA_BUG_STOP")@ != ("PLAYBACK_START")@) by {
                assert(("MEDIA_BUG_STOP")@[0] != ("PLAYBACK_START")@[0]);
            }
            assert(spec_event_of(("PLAYBACK_START")@) == Event::PlaybackStart);
        },
        Event::PlaybackStop => {
            assert(("CHANNEL_STATE")@ != ("PLAYBACK_STOP")@) by {
                assert(("CHANNEL_STATE")@[0] != ("PLAYBACK_STOP")@[0]);
            }
            assert(("DETECTED_TONE")@ != ("PLAYBACK_STOP")@) by {
                assert(("DETECTED_TONE")@[0] != ("PLAYBACK_STOP")@[0]);
            }
            assert(("MESSAGE_QUERY")@ != ("PLAYBACK_STOP")@) by {
                assert(("MESSAGE_QUERY")@[0] != ("PLAYBACK_STOP")@[0]);
            }
            assert(("MODULE_UNLOAD")@ != ("PLAYBACK_STOP")@) by {
                assert(("MODULE_UNLOAD")@[0] != ("PLAYBACK_STOP")@[0]);
            }
            assert(("PHONE_FEATURE")@ != ("PLAYBACK_STOP")@) by {
                assert(("PHONE_FEATURE")@[1] != ("PLAYBACK_STOP")@[1]);
            }
            assert(spec_event_of(("PLAYBACK_STOP")@) == Event::PlaybackStop);
        },
        Event::PresenceIn => {
            assert(("CALL_DETAIL")@ != ("PRESENCE_IN")@) by {
                assert(("CALL_DETAIL")@[0] != ("PRESENCE_IN")@[0]);
            }
            assert(("CALL_SECURE")@ != ("PRESENCE_IN")@) by {
                assert(("CALL_SECURE")@[0] != ("PRESENCE_IN")@[0]);
            }
            assert(("CALL_UPDATE")@ != ("PRESENCE_IN")@) by {
                assert(("CALL_UPDATE")@[0] != ("PRESENCE_IN")@[0]);
            }
            assert(("MODULE_LOAD")@ != ("PRESENCE_IN")@) by {
                assert(("MODULE_LOAD")@[0] != ("PRESENCE_IN")@[0]);
            }
            assert(spec_event_of(("PRESENCE_IN")@) == Event::PresenceIn);
        },
        Event::PresenceOut => {
            assert(("ADD_SCHEDULE")@ != ("PRESENCE_OUT")@) by {
                assert(("ADD_SCHEDULE")@[0] != ("PRESENCE_OUT")@[0]);
            }
            assert(("CHANNEL_DATA")@ != ("PRESENCE_OUT")@) by {
                assert(("CHANNEL_DATA")@[0] != ("PRESENCE_OUT")@[0]);
            }
            assert(("CHANNEL_HOLD")@ != ("PRESENCE_OUT")@) by {
                assert(("CHANNEL_HOLD")@[0] != ("PRESENCE_OUT")@[0]);
            }
            assert(("CHANNEL_PARK")@ != ("PRESENCE_OUT")@) by {
                assert(("CHANNEL_PARK")@[0] != ("PRESENCE_OUT")@[0]);
            }
            assert(("CHANNEL_UUID")@ != ("PRESENCE_OUT")@) by {
                assert(("CHANNEL_UUID")@[0] != ("PRESENCE_OUT")@[0]);
            }
            assert(("DEL_SCHEDULE")@ != ("PRESENCE_OUT")@) by {
                assert(("DEL_SCHEDULE")@[0] != ("PRESENCE_OUT")@[0]);
            }
            assert(("DEVICE_STATE")@ != ("PRESENCE_OUT")@) by {
                assert(("DEVICE_STATE")@[0] != ("PRESENCE_OUT")@[0]);
            }
            assert(("EXE_SCHEDULE")@ != ("PRESENCE_OUT")@) by {
                assert(("EXE_SCHEDULE")@[0] != ("PRESENCE_OUT")@[0]);
            }
            assert(spec_event_of(("PRESENCE_OUT")@) == Event::PresenceOut);
        },
        Event::PresenceProbe => {
            assert(("BACKGROUND_JOB")@ != ("PRESENCE_PROBE")@) by {
                assert(("BACKGROUND_JOB")@[0] != ("PRESENCE_PROBE")@[0]);
            }
            assert(("CALL_SETUP_REQ")@ != ("PRESENCE_PROBE")@) by {
                assert(("CALL_SETUP_REQ")@[0] != ("PRESENCE_PROBE")@[0]);
            }
            assert(("CHANNEL_ANSWER")@ != ("PRESENCE_PROBE")@) by {
                assert(("CHANNEL_ANSWER")@[0] != ("PRESENCE_PROBE")@[0]);
            }
            assert(("CHANNEL_BRIDGE")@ != ("PRESENCE_PROBE")@) by {
                assert(("CHANNEL_BRIDGE")@[0] != ("PRESENCE_PROBE")@[0]);
            }
            assert(("CHANNEL_CREATE")@ != ("PRESENCE_PROBE")@) by {
                assert(("CHANNEL_CREATE")@[0] != ("PRESENCE_PROBE")@[0]);
            }
            assert(("CHANNEL_GLOBAL")@ != ("PRESENCE_PROBE")@) by {
                assert(("CHANNEL_GLOBAL")@[0] != ("PRESENCE_PROBE")@[0]);
            }
            assert(("CHANNEL_HANGUP")@ != ("PRESENCE_PROBE")@) by {
                assert(("CHANNEL_HANGUP")@[0] != ("PRESENCE_PROBE")@[0]);
            }
            assert(("CHANNEL_UNHOLD")@ != ("PRESENCE_PROBE")@) by {
                assert(("CHANNEL_UNHOLD")@[0] != ("PRESENCE_PROBE")@[0]);
            }
            assert(("CHANNEL_UNPARK")@ != ("PRESENCE_PROBE")@) by {
                assert(("CHANNEL_UNPARK")@[0] != ("PRESENCE_PROBE")@[0]);
            }
            assert(("MEDIA_BUG_STOP")@ != ("PRESENCE_PROBE")@) by {
                assert(("MEDIA_BUG_STOP")@[0] != ("PRESENCE_PROBE")@[0]);
            }
            assert(("PLAYBACK_START")@ != ("PRESENCE_PROBE")@) by {
                assert(("PLAYBACK_START")@[1] != ("PRESENCE_PROBE")@[1]);
            }
            assert(spec_event_of(("PRESENCE_PROBE")@) == Event::PresenceProbe);
        },
        Event::PrivateCommand => {
            assert(("CHANNEL_DESTROY")@ != ("PRIVATE_COMMAND")@) by {
                assert(("CHANNEL_DESTROY")@[0] != ("PRIVATE_COMMAND")@[0]);
            }
            assert(("CHANNEL_EXECUTE")@ != ("PRIVATE_COMMAND")@) by {
                assert(("CHANNEL_EXECUTE")@[0] != ("PRIVATE_COMMAND")@[0]);
            }
            assert(("CONFERENCE_DATA")@ != ("PRIVATE_COMMAND")@) by {
                assert(("CONFERENCE_DATA")@[0] != ("PRIVATE_COMMAND")@[0]);
            }
            assert(("DETECTED_SPEECH")@ != ("PRIVATE_COMMAND")@) by {
                assert(("DETECTED_SPEECH")@[0] != ("PRIVATE_COMMAND")@[0]);
            }
            assert(("MEDIA_BUG_START")@ != ("PRIVATE_COMMAND")@) by {
                assert(("MEDIA_BUG_START")@[0] != ("PRIVATE_COMMAND")@[0]);
            }
            assert(("MESSAGE_WAITING")@ != ("PRIVATE_COMMAND")@) by {
                assert(("MESSAGE_WAITING")@[0] != ("PRIVATE_COMMAND")@[0]);
            }
            assert(spec_event_of(("PRIVATE_COMMAND")@) == Event::PrivateCommand);
        },
        Event::Publish => {
            assert(("COMMAND")@ != ("PUBLISH")@) by {
                assert(("COMMAND")@[0] != ("PUBLISH")@[0]);
            }
            assert(("FAILURE")@ != ("PUBLISH")@) by {
                assert(("FAILURE")@[0] != ("PUBLISH")@[0]);
            }
            assert(("GENERAL")@ != ("PUBLISH")@) by {
                assert(("GENERAL")@[0] != ("PUBLISH")@[0]);
            }
            assert(("MESSAGE")@ != ("PUBLISH")@) by {
                assert(("MESSAGE")@[0] != ("PUBLISH")@[0]);
            }
            assert(spec_event_of(("PUBLISH")@) == Event::Publish);
        },
        Event::QueueLen => {
            assert(("HEARTBEAT")@ != ("QUEUE_LEN")@) by {
                assert(("HEARTBEAT")@[0] != ("QUEUE_LEN")@[0]);
            }
            assert(("NOTIFY_IN")@ != ("QUEUE_LEN")@) by {
                assert(("NOTIFY_IN")@[0] != ("QUEUE_LEN")@[0]);
            }
            assert(spec_event_of(("QUEUE_LEN")@) == Event::QueueLen);
        },
        Event::RecordStart => {
            assert(("ADD_SCHEDULE")@ != ("RECORD_START")@) by {
                assert(("ADD_SCHEDULE")@[0] != ("RECORD_START")@[0]);
            }
            assert(("CHANNEL_DATA")@ != ("RECORD_START")@) by {
                assert(("CHANNEL_DATA")@[0] != ("RECORD_START")@[0]);
            }
            assert(("CHANNEL_HOLD")@ != ("RECORD_START")@) by {
                assert(("CHANNEL_HOLD")@[0] != ("RECORD_START")@[0]);
            }
            assert(("CHANNEL_PARK")@ != ("RECORD_START")@) by {
                assert(("CHANNEL_PARK")@[0] != ("RECORD_START")@[0]);
            }
            assert(("CHANNEL_UUID")@ != ("RECORD_START")@) by {
                assert(("CHANNEL_UUID")@[0] != ("RECORD_START")@[0]);
            }
            assert(("DEL_SCHEDULE")@ != ("RECORD_START")@) by {
                assert(("DEL_SCHEDULE")@[0] != ("RECORD_START")@[0]);
            }
            assert(("DEVICE_STATE")@ != ("RECORD_START")@) by {
                assert(("DEVICE_STATE")@[0] != ("RECORD_START")@[0]);
            }
            assert(("EXE_SCHEDULE")@ != ("RECORD_START")@) by {
                assert(("EXE_SCHEDULE")@[0] != ("RECORD_START")@[0]);
            }
            assert(("PRESENCE_OUT")@ != ("RECORD_START")@) by {
                assert(("PRESENCE_OUT")@[0] != ("RECORD_START")@[0]);
            }
            assert(spec_event_of(("RECORD_START")@) == Event::RecordStart);
        },
        Event::RecordStop => {
            assert(("CALL_DETAIL")@ != ("RECORD_STOP")@) by {
                assert(("CALL_DETAIL")@[0] != ("RECORD_STOP")@[0]);
            }
            assert(("CALL_SECURE")@ != ("RECORD_STOP")@) by {
                assert(("CALL_SECURE")@[0] != ("RECORD_STOP")@[0]);
            }
            assert(("CALL_UPDATE")@ != ("RECORD_STOP")@) by {
                assert(("CALL_UPDATE")@[0] != ("RECORD_STOP")@[0]);
            }
            assert(("MODULE_LOAD")@ != ("RECORD_STOP")@) by {
                assert(("MODULE_LOAD")@[0] != ("RECORD_STOP")@[0]);
            }
            assert(("PRESENCE_IN")@ != ("RECORD_STOP")@) by {
                assert(("PRESENCE_IN")@[0] != ("RECORD_STOP")@[0]);
            }
            assert(spec_event_of(("RECORD_STOP")@) == Event::RecordStop);
        },
        Event::RecvInfo => {
            assert(("HEARTBEAT")@ != ("RECV_INFO")@) by {
                assert(("HEARTBEAT")@[0] != ("RECV_INFO")@[0]);
            }
            assert(("NOTIFY_IN")@ != ("RECV_INFO")@) by {
                assert(("NOTIFY_IN")@[0] != ("RECV_INFO")@[0]);
            }
            assert(("QUEUE_LEN")@ != ("RECV_INFO")@) by {
                assert(("QUEUE_LEN")@[0] != ("RECV_INFO")@[0]);
            }
            assert(spec_event_of(("RECV_INFO")@) == Event::RecvInfo);
        },
        Event::RecvMessage => {
            assert(("ADD_SCHEDULE")@ != ("RECV_MESSAGE")@) by {
                assert(("ADD_SCHEDULE")@[0] != ("RECV_MESSAGE")@[0]);
            }
            assert(("CHANNEL_DATA")@ != ("RECV_MESSAGE")@) by {
                assert(("CHANNEL_DATA")@[0] != ("RECV_MESSAGE")@[0]);
            }
            assert(("CHANNEL_HOLD")@ != ("RECV_MESSAGE")@) by {
                assert(("CHANNEL_HOLD")@[0] != ("RECV_MESSAGE")@[0]);
            }
            assert(("CHANNEL_PARK")@ != ("RECV_MESSAGE")@) by {
                assert(("CHANNEL_PARK")@[0] != ("RECV_MESSAGE")@[0]);
            }
            assert(("CHANNEL_UUID")@ != ("RECV_MESSAGE")@) by {
                assert(("CHANNEL_UUID")@[0] != ("RECV_MESSAGE")@[0]);
            }
            assert(("DEL_SCHEDULE")@ != ("RECV_MESSAGE")@) by {
                assert(("DEL_SCHEDULE")@[0] != ("RECV_MESSAGE")@[0]);
            }
            assert(("DEVICE_STATE")@ != ("RECV_MESSAGE")@) by {
                assert(("DEVICE_STATE")@[0] != ("RECV_MESSAGE")@[0]);
            }
            assert(("EXE_SCHEDULE")@ != ("RECV_MESSAGE")@) by {
                assert(("EXE_SCHEDULE")@[0] != ("RECV_MESSAGE")@[0]);
            }
            assert(("PRESENCE_OUT")@ != ("RECV_MESSAGE")@) by {
                assert(("PRESENCE_OUT")@[0] != ("RECV_MESSAGE")@[0]);
            }
            assert(("RECORD_START")@ != ("RECV_MESSAGE")@) by {
                assert(("RECORD_START")@[3] != ("RECV_MESSAGE")@[3]);
            }
            assert(spec_event_of(("RECV_MESSAGE")@) == Event::RecvMessage);
        },
        Event::RecvRtcpMessage => {
            assert(("CHANNEL_CALLSTATE")@ != ("RECV_RTCP_MESSAGE")@) by {
                assert(("CHANNEL_CALLSTATE")@[0] != ("RECV_RTCP_MESSAGE")@[0]);
            }
            assert(("CHANNEL_ORIGINATE")@ != ("RECV_RTCP_MESSAGE")@) by {
                assert(("CHANNEL_ORIGINATE")@[0] != ("RECV_RTCP_MESSAGE")@[0]);
            }
            assert(spec_event_of(("RECV_RTCP_MESSAGE")@) == Event::RecvRtcpMessage);
        },
        Event::Recycle => {
            assert(("COMMAND")@ != ("RECYCLE")@) by {
                assert(("COMMAND")@[0] != ("RECYCLE")@[0]);
            }
            assert(("FAILURE")@ != ("RECYCLE")@) by {
                assert(("FAILURE")@[0] != ("RECYCLE")@[0]);
            }
            assert(("GENERAL")@ != ("RECYCLE")@) by {
                assert(("GENERAL")@[0] != ("RECYCLE")@[0]);
            }
            assert(("MESSAGE")@ != ("RECYCLE")@) by {
                assert(("MESSAGE")@[0] != ("RECYCLE")@[0]);
            }
            assert(("PUBLISH")@ != ("RECYCLE")@) by {
                assert(("PUBLISH")@[0] != ("RECYCLE")@[0]);
            }
            assert(spec_event_of(("RECYCLE")@) == Event::Recycle);
        },
        Event::ReloadXml => {
            assert(("HEARTBEAT")@ != ("RELOADXML")@) by {
                assert(("HEARTBEAT")@[0] != ("RELOADXML")@[0]);
            }
            assert(("NOTIFY_IN")@ != ("RELOADXML")@) by {
                assert(("NOTIFY_IN")@[0] != ("RELOADXML")@[0]);
            }
            assert(("QUEUE_LEN")@ != ("RELOADXML")@) by {
                assert(("QUEUE_LEN")@[0] != ("RELOADXML")@[0]);
            }
            assert(("RECV_INFO")@ != ("RELOADXML")@) by {
                assert(("RECV_INFO")@[2] != ("RELOADXML")@[2]);
            }
            assert(spec_event_of(("RELOADXML")@) == Event::ReloadXml);
        },
        Event::RequestParams => {
            assert(("BACKGROUND_JOB")@ != ("REQUEST_PARAMS")@) by {
                assert(("BACKGROUND_JOB")@[0] != ("REQUEST_PARAMS")@[0]);
            }
            assert(("CALL_SETUP_REQ")@ != ("REQUEST_PARAMS")@) by {
                assert(("CALL_SETUP_REQ")@[0] != ("REQUEST_PARAMS")@[0]);
            }
            assert(("CHANNEL_ANSWER")@ != ("REQUEST_PARAMS")@) by {
                assert(("CHANNEL_ANSWER")@[0] != ("REQUEST_PARAMS")@[0]);
            }
            assert(("CHANNEL_BRIDGE")@ != ("REQUEST_PARAMS")@) by {
                assert(("CHANNEL_BRIDGE")@[0] != ("REQUEST_PARAMS")@[0]);
            }
            assert(("CHANNEL_CREATE")@ != ("REQUEST_PARAMS")@) by {
                assert(("CHANNEL_CREATE")@[0] != ("REQUEST_PARAMS")@[0]);
            }
            assert(("CHANNEL_GLOBAL")@ != ("REQUEST_PARAMS")@) by {
                assert(("CHANNEL_GLOBAL")@[0] != ("REQUEST_PARAMS")@[0]);
            }
            assert(("CHANNEL_HANGUP")@ != ("REQUEST_PARAMS")@) by {
                assert(("CHANNEL_HANGUP")@[0] != ("REQUEST_PARAMS")@[0]);
            }
            assert(("CHANNEL_UNHOLD")@ != ("REQUEST_PARAMS")@) by {
                assert(("CHANNEL_UNHOLD")@[0] != ("REQUEST_PARAMS")@[0]);
            }
            assert(("CHANNEL_UNPARK")@ != ("REQUEST_PARAMS")@) by {
                assert(("CHANNEL_UNPARK")@[0] != ("REQUEST_PARAMS")@[0]);
            }
            assert(("MEDIA_BUG_STOP")@ != ("REQUEST_PARAMS")@) by {
                assert(("MEDIA_BUG_STOP")@[0] != ("REQUEST_PARAMS")@[0]);
            }
            assert(("PLAYBACK_START")@ != ("REQUEST_PARAMS")@) by {
                assert(("PLAYBACK_START")@[0] != ("REQUEST_PARAMS")@[0]);
            }
            assert(("PRESENCE_PROBE")@ != ("REQUEST_PARAMS")@) by {
                assert(("PRESENCE_PROBE")@[0] != ("REQUEST_PARAMS")@[0]);
            }
            assert(spec_event_of(("REQUEST_PARAMS")@) == Event::RequestParams);
        },
        Event::ReSchedule => {
            assert(("CALL_DETAIL")@ != ("RE_SCHEDULE")@) by {
                assert(("CALL_DETAIL")@[0] != ("RE_SCHEDULE")@[0]);
            }
            assert(("CALL_SECURE")@ != ("RE_SCHEDULE")@) by {
                assert(("CALL_SECURE")@[0] != ("RE_SCHEDULE")@[0]);
            }
            assert(("CALL_UPDATE")@ != ("RE_SCHEDULE")@) by {
                assert(("CALL_UPDATE")@[0] != ("RE_SCHEDULE")@[0]);
            }
            assert(("MODULE_LOAD")@ != ("RE_SCHEDULE")@) by {
                assert(("MODULE_LOAD")@[0] != ("RE_SCHEDULE")@[0]);
            }
            assert(("PRESENCE_IN")@ != ("RE_SCHEDULE")@) by {
                assert(("PRESENCE_IN")@[0] != ("RE_SCHEDULE")@[0]);
            }
            assert(("RECORD_STOP")@ != ("RE_SCHEDULE")@) by {
                assert(("RECORD_STOP")@[2] != ("RE_SCHEDULE")@[2]);
            }
            assert(spec_event_of(("RE_SCHEDULE")@) == Event::ReSchedule);
        },
        Event::Roster => {
            assert(("CUSTOM")@ != ("ROSTER")@) by {
                assert(("CUSTOM")@[0] != ("ROSTER")@[0]);
            }
            assert(("NOTALK")@ != ("ROSTER")@) by {
                assert(("NOTALK")@[0] != ("ROSTER")@[0]);
            }
            assert(("NOTIFY")@ != ("ROSTER")@) by {
                assert(("NOTIFY")@[0] != ("ROSTER")@[0]);
            }
            assert(spec_event_of(("ROSTER")@) == Event::Roster);
        },
        Event::SendInfo => {
            assert(("HEARTBEAT")@ != ("SEND_INFO")@) by {
                assert(("HEARTBEAT")@[0] != ("SEND_INFO")@[0]);
            }
            assert(("NOTIFY_IN")@ != ("SEND_INFO")@) by {
                assert(("NOTIFY_IN")@[0] != ("SEND_INFO")@[0]);
            }
            assert(("QUEUE_LEN")@ != ("SEND_INFO")@) by {
                assert(("QUEUE_LEN")@[0] != ("SEND_INFO")@[0]);
            }
            assert(("RECV_INFO")@ != ("SEND_INFO")@) by {
                assert(("RECV_INFO")@[0] != ("SEND_INFO")@[0]);
            }
            assert(("RELOADXML")@ != ("SEND_INFO")@) by {
                assert(("RELOADXML")@[0] != ("SEND_INFO")@[0]);
            }
            assert(spec_event_of(("SEND_INFO")@) == Event::SendInfo);
        },
        Event::SendMessage => {
            assert(("ADD_SCHEDULE")@ != ("SEND_MESSAGE")@) by {
                assert(("ADD_SCHEDULE")@[0] != ("SEND_MESSAGE")@[0]);
            }
            assert(("CHANNEL_DATA")@ != ("SEND_MESSAGE")@) by {
                assert(("CHANNEL_DATA")@[0] != ("SEND_MESSAGE")@[0]);
            }
            assert(("CHANNEL_HOLD")@ != ("SEND_MESSAGE")@) by {
                assert(("CHANNEL_HOLD")@[0] != ("SEND_MESSAGE")@[0]);
            }
            assert(("CHANNEL_PARK")@ != ("SEND_MESSAGE")@) by {
                assert(("CHANNEL_PARK")@[0] != ("SEND_MESSAGE")@[0]);
            }
            assert(("CHANNEL_UUID")@ != ("SEND_MESSAGE")@) by {
                assert(("CHANNEL_UUID")@[0] != ("SEND_MESSAGE")@[0]);
            }
            assert(("DEL_SCHEDULE")@ != ("SEND_MESSAGE")@) by {
                assert(("DEL_SCHEDULE")@[0] != ("SEND_MESSAGE")@[0]);
            }
            assert(("DEVICE_STATE")@ != ("SEND_MESSAGE")@) by {
                assert(("DEVICE_STATE")@[0] != ("SEND_MESSAGE")@[0]);
            }
            assert(("EXE_SCHEDULE")@ != ("SEND_MESSAGE")@) by {
                assert(("EXE_SCHEDULE")@[0] != ("SEND_MESSAGE")@[0]);
            }
            assert(("PRESENCE_OUT")@ != ("SEND_MESSAGE")@) by {
                assert(("PRESENCE_OUT")@[0] != ("SEND_MESSAGE")@[0]);
            }
            assert(("RECORD_START")@ != ("SEND_MESSAGE")@) by {
                assert(("RECORD_START")@[0] != ("SEND_MESSAGE")@[0]);
            }
            assert(("RECV_MESSAGE")@ != ("SEND_MESSAGE")@) by {
                assert(("RECV_MESSAGE")@[0] != ("SEND_MESSAGE")@[0]);
            }
            assert(spec_event_of(("SEND_MESSAGE")@) == Event::SendMessage);
        },
        Event::SessionHeartbeat => {
            assert(("CHANNEL_CALLSTATE")@ != ("SESSION_HEARTBEAT")@) by {
                assert(("CHANNEL_CALLSTATE")@[0] != ("SESSION_HEARTBEAT")@[0]);
            }
            assert(("CHANNEL_ORIGINATE")@ != ("SESSION_HEARTBEAT")@) by {
                assert(("CHANNEL_ORIGINATE")@[0] != ("SESSION_HEARTBEAT")@[0]);
            }
            assert(("RECV_RTCP_MESSAGE")@ != ("SESSION_HEARTBEAT")@) by {
                assert(("RECV_RTCP_MESSAGE")@[0] != ("SESSION_HEARTBEAT")@[0]);
            }
            assert(spec_event_of(("SESSION_HEARTBEAT")@) == Event::SessionHeartbeat);
        },
        Event::Shutdown => {
            assert(spec_event_of(("SHUTDOWN")@) == Event::Shutdown);
        },
        Event::Startup => {
            assert(("COMMAND")@ != ("STARTUP")@) by {
                assert(("COMMAND")@[0] != ("STARTUP")@[0]);
            }
            assert(("FAILURE")@ != ("STARTUP")@) by {
                assert(("FAILURE")@[0] != ("STARTUP")@[0]);
            }
            assert(("GENERAL")@ != ("STARTUP")@) by {
                assert(("GENERAL")@[0] != ("STARTUP")@[0]);
            }
            assert(("MESSAGE")@ != ("STARTUP")@) by {
                assert(("MESSAGE")@[0] != ("STARTUP")@[0]);
            }
            assert(("PUBLISH")@ != ("STARTUP")@) by {
                assert(("PUBLISH")@[0] != ("STARTUP")@[0]);
            }
            assert(("RECYCLE")@ != ("STARTUP")@) by {
                assert(("RECYCLE")@[0] != ("STARTUP")@[0]);
            }
            assert(spec_event_of(("STARTUP")@) == Event::Startup);
        },
        Event::SubclassAny => {
            assert(("ADD_SCHEDULE")@ != ("SUBCLASS_ANY")@) by {
                assert(("ADD_SCHEDULE")@[0] != ("SUBCLASS_ANY")@[0]);
            }
            assert(("CHANNEL_DATA")@ != ("SUBCLASS_ANY")@) by {
                assert(("CHANNEL_DATA")@[0] != ("SUBCLASS_ANY")@[0]);
            }
            assert(("CHANNEL_HOLD")@ != ("SUBCLASS_ANY")@) by {
                assert(("CHANNEL_HOLD")@[0] != ("SUBCLASS_ANY")@[0]);
            }
            assert(("CHANNEL_PARK")@ != ("SUBCLASS_ANY")@) by {
                assert(("CHANNEL_PARK")@[0] != ("SUBCLASS_ANY")@[0]);
            }
            assert(("CHANNEL_UUID")@ != ("SUBCLASS_ANY")@) by {
                assert(("CHANNEL_UUID")@[0] != ("SUBCLASS_ANY")@[0]);
            }
            assert(("DEL_SCHEDULE")@ != ("SUBCLASS_ANY")@) by {
                assert(("DEL_SCHEDULE")@[0] != ("SUBCLASS_ANY")@[0]);
            }
            assert(("DEVICE_STATE")@ != ("SUBCLASS_ANY")@) by {
                assert(("DEVICE_STATE")@[0] != ("SUBCLASS_ANY")@[0]);
            }
            assert(("EXE_SCHEDULE")@ != ("SUBCLASS_ANY")@) by {
                assert(("EXE_SCHEDULE")@[0] != ("SUBCLASS_ANY")@[0]);
            }
            assert(("PRESENCE_OUT")@ != ("SUBCLASS_ANY")@) by {
                assert(("PRESENCE_OUT")@[0] != ("SUBCLASS_ANY")@[0]);
            }
            assert(("RECORD_START")@ != ("SUBCLASS_ANY")@) by {
                assert(("RECORD_START")@[0] != ("SUBCLASS_ANY")@[0]);
            }
            assert(("RECV_MESSAGE")@ != ("SUBCLASS_ANY")@) by {
                assert(("RECV_MESSAGE")@[0] != ("SUBCLASS_ANY")@[0]);
            }
            assert(("SEND_MESSAGE")@ != ("SUBCLASS_ANY")@) by {
                assert(("SEND_MESSAGE")@[1] != ("SUBCLASS_ANY")@[1]);
            }
            assert(spec_event_of(("SUBCLASS_ANY")@) == Event::SubclassAny);
        },
        Event::Talk => {
            assert(("DTMF")@ != ("TALK")@) by {
                assert(("DTMF")@[0] != ("TALK")@[0]);
            }
            assert(spec_event_of(("TALK")@) == Event::Talk);
        },
        Event::Trap => {
            assert(("DTMF")@ != ("TRAP")@) by {
                assert(("DTMF")@[0] != ("TRAP")@[0]);
            }
            assert(("TALK")@ != ("TRAP")@) by {
                assert(("TALK")@[1] != ("TRAP")@[1]);
            }
            assert(spec_event_of(("TRAP")@) == Event::Trap);
        },
        Event::Unpublish => {
            assert(("HEARTBEAT")@ != ("UNPUBLISH")@) by {
                assert(("HEARTBEAT")@[0] != ("UNPUBLISH")@[0]);
            }
            assert(("NOTIFY_IN")@ != ("UNPUBLISH")@) by {
                assert(("NOTIFY_IN")@[0] != ("UNPUBLISH")@[0]);
            }
            assert(("QUEUE_LEN")@ != ("UNPUBLISH")@) by {
                assert(("QUEUE_LEN")@[0] != ("UNPUBLISH")@[0]);
            }
            assert(("RECV_INFO")@ != ("UNPUBLISH")@) by {
                assert(("RECV_INFO")@[0] != ("UNPUBLISH")@[0]);
            }
            assert(("RELOADXML")@ != ("UNPUBLISH")@) by {
                assert(("RELOADXML")@[0] != ("UNPUBLISH")@[0]);
            }
            assert(("SEND_INFO")@ != ("UNPUBLISH")@) by {
                assert(("SEND_INFO")@[0] != ("UNPUBLISH")@[0]);
            }
            assert(spec_event_of(("UNPUBLISH")@) == Event::Unpublish);
        },
        Event::NoneEvent => {
            assert(("CHANNEL_STATE")@ != ("Invalid Event")@) by {
                assert(("CHANNEL_STATE")@[0] != ("Invalid Event")@[0]);
            }
            assert(("DETECTED_TONE")@ != ("Invalid Event")@) by {
                assert(("DETECTED_TONE")@[0] != ("Invalid Event")@[0]);
            }
            assert(("MESSAGE_QUERY")@ != ("Invalid Event")@) by {
                assert(("MESSAGE_QUERY")@[0] != ("Invalid Event")@[0]);
            }
            assert(("MODULE_UNLOAD")@ != ("Invalid Event")@) by {
                assert(("MODULE_UNLOAD")@[0] != ("Invalid Event")@[0]);
            }
            assert(("PHONE_FEATURE")@ != ("Invalid Event")@) by {
                assert(("PHONE_FEATURE")@[0] != ("Invalid Event")@[0]);
            }
            assert(("PLAYBACK_STOP")@ != ("Invalid Event")@) by {
                assert(("PLAYBACK_STOP")@[0] != ("Invalid Event")@[0]);
            }
            assert(spec_event_of(("Invalid Event")@) == Event::NoneEvent);
        },
    }
}

} // verus!
