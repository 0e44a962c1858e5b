//! The pure decision core of a session: the framing of outbound commands,
//! the write-once `is_closed` latch, the reader's and the writer's reaction
//! to each event they can observe, and the draining of buffered inbound
//! bytes into messages in wire order.
//!
//! The surrounding task loops own the socket and the channels; they feed
//! events to [`reader_step`] and [`writer_step`] and perform the actions
//! those return.

use vstd::prelude::*;

verus! {

use crate::message::Message;
use crate::message::MsgError;
use crate::message::SpecMessage;
use crate::message::SpecFraming;
use crate::message::spec_frame_at;
use crate::message::spec_interpret;
use crate::message::interpret_frame;
use crate::text::spec_trim;

/// The bytes of one outbound wire frame for a logical command: the command
/// with surrounding whitespace removed, terminated by a blank line.
pub open spec fn spec_frame(data: Seq<u8>) -> Seq<u8> {
    spec_trim(data) + seq![10u8, 10u8]
}

/// Build the wire frame for one logical command: trim it and append `\n\n`.
pub fn frame_command(data: &[u8]) -> (r: Vec<u8>)
    ensures
        r@ == spec_frame(data@),
{
    proof {
        assert(data@.subrange(0, data@.len() as int) =~= data@);
    }
    let mut out = crate::text::trim_to_vec(data, 0, data.len());
    out.push(10u8);
    out.push(10u8);
    proof {
        assert(out@ =~= spec_frame(data@));
    }
    out
}

/// The bytes a sequence of commands puts on the wire: one frame for each
/// command, in command order.
pub open spec fn spec_wire(cmds: Seq<Seq<u8>>) -> Seq<u8>
    decreases cmds.len(),
{
    if cmds.len() == 0 {
        Seq::empty()
    } else {
        spec_frame(cmds[0]) + spec_wire(cmds.drop_first())
    }
}

/// Each further command appends exactly its own frame to the wire: the
/// bytes sent for `send(x_1), …, send(x_n)` are the frames of `x_1 … x_n`
/// in that order, each trimmed and terminated by a blank line.
pub proof fn lemma_wire_append(cmds: Seq<Seq<u8>>, c: Seq<u8>)
    ensures
        spec_wire(cmds.push(c)) == spec_wire(cmds) + spec_frame(c),
    decreases cmds.len(),
{
    if cmds.len() == 0 {
        reveal_with_fuel(spec_wire, 3);
        assert(cmds.push(c).drop_first() =~= Seq::<Seq<u8>>::empty());
        assert(spec_wire(cmds.push(c)) =~= spec_wire(cmds) + spec_frame(c));
    } else {
        assert(cmds.push(c).drop_first() =~= cmds.drop_first().push(c));
        lemma_wire_append(cmds.drop_first(), c);
        assert(spec_frame(cmds[0]) + (spec_wire(cmds.drop_first()) + spec_frame(c)) =~= (spec_frame(
            cmds[0],
        ) + spec_wire(cmds.drop_first())) + spec_frame(c));
    }
}

/// The shared state of one session: the `is_closed` latch. It is
/// write-once: every step keeps it set once it is set, and no step ever
/// clears it.
#[derive(Debug)]
pub struct SessionState {
    /// Whether the session has observed a terminal condition.
    pub closed: bool,
}

impl SessionState {
    /// The state of a session that has just been set up.
    pub fn new() -> (r: SessionState)
        ensures
            !r.closed,
    {
        SessionState { closed: false }
    }

    /// The latched closed state.
    pub fn is_closed(&self) -> (r: bool)
        ensures
            r == self.closed,
    {
        self.closed
    }
}

/// What the session reader can observe on one iteration of its loop.
pub enum ReadEvent {
    /// The external shutdown signal fired.
    Shutdown,
    /// The internal close signal fired.
    CloseSignal,
    /// One attempt to parse the next inbound message finished.
    Frame(Result<Message, MsgError>),
}

/// What the session reader does after observing an event.
pub enum ReadAction {
    /// Leave the loop.
    Exit,
    /// Publish this message on the inbound broadcast, then continue.
    Publish(Message),
    /// Broadcast the internal close signal, then leave the loop.
    CloseAndExit,
    /// Do nothing and continue with the next event.
    Ignore,
}

/// A parse failure that ends the session: the peer closed the connection,
/// or the socket failed. Every other failure lets the reader re-sync on the
/// next frame.
pub open spec fn spec_terminal(e: MsgError) -> bool {
    e is ConnectionClosed || e is ReadFailed
}

/// The latch value after the reader handles `ev` in a state with latch `c`.
pub open spec fn spec_reader_latch(c: bool, ev: ReadEvent) -> bool {
    match ev {
        ReadEvent::Shutdown => c,
        ReadEvent::CloseSignal => true,
        ReadEvent::Frame(r) => match r {
            Ok(_) => c,
            Err(e) => c || spec_terminal(e),
        },
    }
}

/// One decision of the reader task: silently exit on external shutdown;
/// latch and exit on the internal close signal; publish each parsed
/// message; on a terminal parse failure latch, broadcast close and exit; on
/// any other parse failure ignore the frame and continue.
pub fn reader_step(st: &mut SessionState, ev: ReadEvent) -> (act: ReadAction)
    ensures
        final(st).closed == spec_reader_latch(old(st).closed, ev),
        old(st).closed ==> final(st).closed,
        match ev {
            ReadEvent::Shutdown => act is Exit,
            ReadEvent::CloseSignal => act is Exit && final(st).closed,
            ReadEvent::Frame(r) => match r {
                Ok(m) => act matches ReadAction::Publish(p) && p == m,
                Err(e) => {
                    &&& spec_terminal(e) ==> act is CloseAndExit && final(st).closed
                    &&& !spec_terminal(e) ==> act is Ignore
                },
            },
        },
{
    match ev {
        ReadEvent::Shutdown => ReadAction::Exit,
        ReadEvent::CloseSignal => {
            st.closed = true;
            ReadAction::Exit
        },
        ReadEvent::Frame(r) => match r {
            Ok(m) => ReadAction::Publish(m),
            Err(e) => match e {
                MsgError::ConnectionClosed | MsgError::ReadFailed => {
                    st.closed = true;
                    ReadAction::CloseAndExit
                },
                _ => ReadAction::Ignore,
            },
        },
    }
}

/// What the session writer can observe on one iteration of its loop.
pub enum WriteEvent {
    /// The external shutdown signal fired.
    Shutdown,
    /// The internal close signal fired.
    CloseSignal,
    /// One logical command arrived on the outbound queue.
    Command(Vec<u8>),
    /// The last write failed.
    WriteFailed,
    /// The last flush failed.
    FlushFailed,
}

/// What the session writer does after observing an event.
pub enum WriteAction {
    /// Leave the loop.
    Exit,
    /// Write these bytes to the socket and flush, then continue.
    Write(Vec<u8>),
    /// Broadcast the internal close signal, then continue; the close signal
    /// ends the loop on its next turn.
    CloseAndContinue,
    /// Do nothing and continue with the next event.
    Ignore,
}

/// The latch value after the writer handles `ev` in a state with latch `c`.
pub open spec fn spec_writer_latch(c: bool, ev: WriteEvent) -> bool {
    match ev {
        WriteEvent::CloseSignal => true,
        WriteEvent::FlushFailed => true,
        _ => c,
    }
}

/// One decision of the writer task: silently exit on external shutdown;
/// latch and exit on the internal close signal; frame and write each
/// command; keep going after a failed write; latch and broadcast close
/// after a failed flush.
pub fn writer_step(st: &mut SessionState, ev: WriteEvent) -> (act: WriteAction)
    ensures
        final(st).closed == spec_writer_latch(old(st).closed, ev),
        old(st).closed ==> final(st).closed,
        match ev {
            WriteEvent::Shutdown => act is Exit,
            WriteEvent::CloseSignal => act is Exit && final(st).closed,
            WriteEvent::Command(data) => act matches WriteAction::Write(b) && b@ == spec_frame(
                data@,
            ),
            WriteEvent::WriteFailed => act is Ignore,
            WriteEvent::FlushFailed => act is CloseAndContinue && final(st).closed,
        },
{
    match ev {
        WriteEvent::Shutdown => WriteAction::Exit,
        WriteEvent::CloseSignal => {
            st.closed = true;
            WriteAction::Exit
        },
        WriteEvent::Command(data) => WriteAction::Write(frame_command(data.as_slice())),
        WriteEvent::WriteFailed => WriteAction::Ignore,
        WriteEvent::FlushFailed => {
            st.closed = true;
            WriteAction::CloseAndContinue
        },
    }
}

/// The latch after the reader handles a whole sequence of events.
pub open spec fn spec_reader_latch_fold(c: bool, evs: Seq<ReadEvent>) -> bool
    decreases evs.len(),
{
    if evs.len() == 0 {
        c
    } else {
        spec_reader_latch_fold(spec_reader_latch(c, evs[0]), evs.drop_first())
    }
}

/// The latch after the writer handles a whole sequence of events.
pub open spec fn spec_writer_latch_fold(c: bool, evs: Seq<WriteEvent>) -> bool
    decreases evs.len(),
{
    if evs.len() == 0 {
        c
    } else {
        spec_writer_latch_fold(spec_writer_latch(c, evs[0]), evs.drop_first())
    }
}

/// Once `is_closed` is true it never becomes false again: whatever events
/// the reader goes on to observe, the latch stays set.
pub proof fn lemma_reader_latch_monotone(c: bool, evs: Seq<ReadEvent>)
    requires
        c,
    ensures
        spec_reader_latch_fold(c, evs),
    decreases evs.len(),
{
    if evs.len() > 0 {
        lemma_reader_latch_monotone(spec_reader_latch(c, evs[0]), evs.drop_first());
    }
}

/// Once `is_closed` is true it never becomes false again: whatever events
/// the writer goes on to observe, the latch stays set.
pub proof fn lemma_writer_latch_monotone(c: bool, evs: Seq<WriteEvent>)
    requires
        c,
    ensures
        spec_writer_latch_fold(c, evs),
    decreases evs.len(),
{
    if evs.len() > 0 {
        lemma_writer_latch_monotone(spec_writer_latch(c, evs[0]), evs.drop_first());
    }
}

/// The views of a sequence of messages.
pub open spec fn spec_message_views(ms: Seq<Message>) -> Seq<SpecMessage> {
    ms.map_values(|m: Message| m@)
}

/// The messages the frames of `s` denote from position `i` on, in wire
/// order, up to the first incomplete frame; a frame whose body is rejected
/// is skipped and parsing re-syncs at the next frame boundary.
pub open spec fn spec_drain(s: Seq<u8>, i: int) -> Seq<SpecMessage>
    decreases s.len() - i,
{
    match spec_frame_at(s, i) {
        SpecFraming::Incomplete => Seq::empty(),
        SpecFraming::Frame(h, b, end) => {
            if !(i < end <= s.len()) {
                Seq::empty()
            } else {
                match spec_interpret(h, b) {
                    Ok(ed) => seq![SpecMessage { header: h, event_data: ed }] + spec_drain(s, end),
                    Err(_) => spec_drain(s, end),
                }
            }
        },
    }
}

/// Draining is stable under growth: bytes appended to the buffer never
/// change the messages already drained, they only extend the sequence. A
/// reader may therefore parse as each chunk arrives and publish at once.
pub proof fn lemma_drain_stable(s1: Seq<u8>, s2: Seq<u8>, i: int)
    requires
        0 <= i <= s1.len(),
    ensures
        spec_drain(s1, i).is_prefix_of(spec_drain(s1 + s2, i)),
    decreases s1.len() - i,
{
    match spec_frame_at(s1, i) {
        SpecFraming::Incomplete => {
            assert(spec_drain(s1, i).len() == 0);
            assert(spec_drain(s1, i) =~= spec_drain(s1 + s2, i).subrange(0, 0));
        },
        SpecFraming::Frame(h, b, end) => {
            crate::message::lemma_frame_prefix(s1, s2, i);
            if i < end <= s1.len() {
                lemma_drain_stable(s1, s2, end);
                let p1 = spec_drain(s1, end);
                let p2 = spec_drain(s1 + s2, end);
                assert(end <= (s1 + s2).len());
                match spec_interpret(h, b) {
                    Ok(ed) => {
                        let m = SpecMessage { header: h, event_data: ed };
                        let d1 = seq![m] + p1;
                        let d2 = seq![m] + p2;
                        assert(d1 =~= d2.subrange(0, d1.len() as int)) by {
                            assert(p1 =~= p2.subrange(0, p1.len() as int));
                        }
                        assert(spec_drain(s1, i) == d1);
                        assert(spec_drain(s1 + s2, i) == d2);
                    },
                    Err(_) => {
                        assert(spec_drain(s1, i) == p1);
                        assert(spec_drain(s1 + s2, i) == p2);
                    },
                }
            } else {
                assert(spec_drain(s1, i).len() == 0);
                assert(spec_drain(s1, i) =~= spec_drain(s1 + s2, i).subrange(0, 0));
            }
        },
    }
}

/// Parse every complete frame buffered from `start` on. The messages come
/// back exactly in wire order — the inbound broadcast publishes them in the
/// order their frames arrived — together with the position of the first
/// incomplete frame, where the next read must resume.
pub fn drain_buffer(buf: &[u8], start: usize) -> (r: (Vec<Message>, usize))
    requires
        start <= buf@.len(),
    ensures
        spec_message_views(r.0@) == spec_drain(buf@, start as int),
        start <= r.1 <= buf@.len(),
        spec_frame_at(buf@, r.1 as int) is Incomplete,
{
    let mut msgs: Vec<Message> = Vec::new();
    let mut pos: usize = start;
    loop
        invariant
            start <= pos <= buf@.len(),
            spec_drain(buf@, start as int) == spec_message_views(msgs@) + spec_drain(
                buf@,
                pos as int,
            ),
        decreases buf@.len() - pos,
    {
        match Message::parse_frame(buf, pos) {
            Err(_) => {
                proof {
                    assert(spec_message_views(msgs@) + spec_drain(buf@, pos as int)
                        =~= spec_message_views(msgs@));
                }
                return (msgs, pos);
            },
            Ok(f) => {
                let (headers, body, end) = f;
                let ghost pos0 = pos as int;
                let ghost msgs0 = msgs@;
                match interpret_frame(&headers, body) {
                    Ok(ed) => {
                        let m = Message::new(headers, ed);
                        proof {
                            assert(m@ =~~= (SpecMessage {
                                header: headers@,
                                event_data: crate::message::spec_opt_kv(ed),
                            }));
                        }
                        msgs.push(m);
                        pos = end;
                        proof {
                            assert(spec_message_views(msgs@) =~= spec_message_views(msgs0).push(
                                m@,
                            ));
                            assert(spec_drain(buf@, pos0) == seq![m@] + spec_drain(
                                buf@,
                                pos as int,
                            ));
                            assert(spec_message_views(msgs0) + (seq![m@] + spec_drain(
                                buf@,
                                pos as int,
                            )) =~= spec_message_views(msgs@) + spec_drain(buf@, pos as int));
                        }
                    },
                    Err(_) => {
                        pos = end;
                    },
                }
            },
        }
    }
}

} // verus!
