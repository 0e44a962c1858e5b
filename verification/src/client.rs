//! The client facade's decisions: the authentication handshake and the wire
//! form of each command. Dialing and the socket itself live with the owner
//! of the connection; everything here decides and builds on plain values.

use vstd::prelude::*;

verus! {

use vstd::string::StringSliceAdditionalSpecFns;
use vstd::utf8::encode_utf8;

use crate::event::spec_kv_get_or_empty;
use crate::message::FormatType;
use crate::message::Message;
use crate::message::MsgError;
use crate::message::spec_format_bytes;
use crate::text::spec_contains;

/// An ESL client: the address it dials and the password it authenticates
/// with. It keeps both so that a caller can ask it to reconnect.
#[derive(Debug)]
pub struct Client {
    addr: String,
    /// The password sent in the `auth` command.
    pub pwd: String,
}

impl Client {
    /// The address this client dials.
    pub closed spec fn spec_addr(&self) -> Seq<char> {
        self.addr@
    }

    /// The password this client authenticates with.
    pub closed spec fn spec_pwd(&self) -> Seq<char> {
        self.pwd@
    }

    /// A client that will dial `addr` and authenticate with `pwd`.
    pub fn new(addr: String, pwd: String) -> (r: Client)
        ensures
            r.spec_addr() == addr@,
            r.spec_pwd() == pwd@,
    {
        Client { addr, pwd }
    }

    /// The address this client dials.
    pub fn addr(&self) -> (r: &str)
        ensures
            r@ == self.spec_addr(),
    {
        self.addr.as_str()
    }

    /// The `auth` command line for this client's password.
    pub fn auth_command(&self) -> (r: Vec<u8>)
        ensures
            r@ == ("auth ").spec_bytes() + encode_utf8(self.spec_pwd()),
    {
        let mut out = vstd::slice::slice_to_vec("auth ".as_bytes());
        crate::text::append_bytes(&mut out, self.pwd.as_str().as_bytes());
        out
    }
}

/// The first step of the handshake: the server's greeting must carry
/// `Content-Type: auth/request`; anything else fails client construction
/// with `UnexpectedAuthHeader`.
pub fn expect_auth_request(m: &Message) -> (r: Result<(), MsgError>)
    ensures
        r is Ok <==> spec_kv_get_or_empty(m@.header, ("Content-Type").spec_bytes()) == (
        "auth/request").spec_bytes(),
        r matches Err(e) ==> e matches MsgError::UnexpectedAuthHeader,
{
    let ct = m.get_header("Content-Type".as_bytes());
    if crate::text::bytes_eq(ct.as_slice(), "auth/request".as_bytes()) {
        Ok(())
    } else {
        Err(MsgError::UnexpectedAuthHeader)
    }
}

/// The second step of the handshake: the reply to `auth` must carry exactly
/// `Reply-Text: +OK accepted`; anything else fails client construction with
/// `AuthFailed`.
pub fn check_auth_reply(m: &Message) -> (r: Result<(), MsgError>)
    ensures
        r is Ok <==> spec_kv_get_or_empty(m@.header, ("Reply-Text").spec_bytes()) == (
        "+OK accepted").spec_bytes(),
        r matches Err(e) ==> e matches MsgError::AuthFailed,
{
    let rt = m.get_header("Reply-Text".as_bytes());
    if crate::text::bytes_eq(rt.as_slice(), "+OK accepted".as_bytes()) {
        Ok(())
    } else {
        Err(MsgError::AuthFailed)
    }
}

/// Whether a command reply reports success: its `Reply-Text` carries the
/// `+OK` marker.
pub fn reply_is_ok(m: &Message) -> (r: bool)
    ensures
        r == spec_contains(
            spec_kv_get_or_empty(m@.header, ("Reply-Text").spec_bytes()),
            ("+OK").spec_bytes(),
        ),
{
    let rt = m.get_header("Reply-Text".as_bytes());
    crate::text::contains_seq(rt.as_slice(), "+OK".as_bytes())
}

/// The wire line of an `api` command: the verb, a space, the command.
pub fn api_command(cmd: &[u8]) -> (r: Vec<u8>)
    ensures
        r@ == ("api ").spec_bytes() + cmd@,
{
    let mut out = vstd::slice::slice_to_vec("api ".as_bytes());
    crate::text::append_bytes(&mut out, cmd);
    out
}

/// The wire line of a `bigapi` command, whose replies stream back as
/// events.
pub fn bigapi_command(cmd: &[u8]) -> (r: Vec<u8>)
    ensures
        r@ == ("bigapi ").spec_bytes() + cmd@,
{
    let mut out = vstd::slice::slice_to_vec("bigapi ".as_bytes());
    crate::text::append_bytes(&mut out, cmd);
    out
}

/// The wire line of a `sendmsg` command.
pub fn sendmsg_command(msg: &[u8]) -> (r: Vec<u8>)
    ensures
        r@ == ("sendmsg ").spec_bytes() + msg@,
{
    let mut out = vstd::slice::slice_to_vec("sendmsg ".as_bytes());
    crate::text::append_bytes(&mut out, msg);
    out
}

/// The wire line that subscribes to all events in the given body format:
/// `events <fmt> ALL`.
pub fn events_command(fmt: FormatType) -> (r: Vec<u8>)
    ensures
        r@ == ("events ").spec_bytes() + spec_format_bytes(fmt) + (" ALL").spec_bytes(),
{
    let mut out = vstd::slice::slice_to_vec("events ".as_bytes());
    let f = fmt.to_bytes();
    crate::text::append_bytes(&mut out, f.as_slice());
    crate::text::append_bytes(&mut out, " ALL".as_bytes());
    out
}

/// `names` joined onto a command line from `i` on, each name preceded by
/// one space.
pub open spec fn spec_joined(names: Seq<Vec<u8>>, i: int) -> Seq<u8>
    decreases names.len() - i,
{
    if i < 0 || i >= names.len() {
        Seq::empty()
    } else {
        seq![32u8] + names[i]@ + spec_joined(names, i + 1)
    }
}

/// The wire line that filters the event stream by event name:
/// `filter Event-Name <space-joined names>`.
pub fn filter_command(names: &Vec<Vec<u8>>) -> (r: Vec<u8>)
    ensures
        r@ == ("filter Event-Name").spec_bytes() + spec_joined(names@, 0),
{
    let mut out = vstd::slice::slice_to_vec("filter Event-Name".as_bytes());
    let n = names.len();
    let mut i: usize = 0;
    while i < n
        invariant
            i <= n,
            n == names@.len(),
            out@ + spec_joined(names@, i as int) == ("filter Event-Name").spec_bytes()
                + spec_joined(names@, 0),
        decreases n - i,
    {
        let ghost out0 = out@;
        out.push(32u8);
        crate::text::append_bytes(&mut out, names[i].as_slice());
        i = i + 1;
        proof {
            assert(out@ =~= out0 + (seq![32u8] + names@[i - 1]@));
            assert(out@ + spec_joined(names@, i as int) =~= out0 + spec_joined(names@, i - 1));
        }
    }
    proof {
        assert(out@ + spec_joined(names@, n as int) =~= out@);
    }
    out
}

} // verus!
