//! The ESL message value and its streaming frame parser.
//!
//! A frame on the wire is a block of `Field: Value` lines terminated by a
//! blank line, followed by exactly `Content-Length` body bytes when that
//! header is present. The body is interpreted according to `Content-Type`.

use vstd::prelude::*;

verus! {

use vstd::string::StringSliceAdditionalSpecFns;

use crate::event::EventData;
use crate::event::EventHandler;
use crate::event::KvMap;
use crate::event::spec_kv_get;
use crate::event::spec_kv_insert;
use crate::event::spec_kv_unique;
use crate::text::spec_find;
use crate::text::spec_trim;

/// How parsing or the session can fail.
#[derive(Debug)]
pub enum MsgError {
    /// Not enough data is available to parse a message.
    Incomplete,
    /// Failed to read from the socket.
    ReadFailed,
    /// Connection closed by the remote peer.
    ConnectionClosed,
    /// The message body could not be parsed.
    BodyParseFailed,
    /// The parsed `Content-Type` is outside the supported set.
    UnsupportedContentType,
    /// A reply carried an `-ERR` marker.
    ErrResponse(Vec<u8>),
    /// The first message of the handshake was not an `auth/request`.
    UnexpectedAuthHeader,
    /// The reply to `auth` was not an acceptance.
    AuthFailed,
}

/// The closed set of body formats a client may ask the server to use.
#[derive(Debug, PartialEq, Eq, Structural, Clone, Copy)]
pub enum FormatType {
    Xml,
    Json,
    Plain,
}

/// The lowercased wire spelling of a format.
pub open spec fn spec_format_bytes(f: FormatType) -> Seq<u8> {
    match f {
        FormatType::Xml => ("xml").spec_bytes(),
        FormatType::Json => ("json").spec_bytes(),
        FormatType::Plain => ("plain").spec_bytes(),
    }
}

/// The format whose wire spelling is `s`, parsed case-sensitively.
pub open spec fn spec_format_of(s: Seq<u8>) -> Option<FormatType> {
    if s == ("xml").spec_bytes() {
        Some(FormatType::Xml)
    } else if s == ("json").spec_bytes() {
        Some(FormatType::Json)
    } else if s == ("plain").spec_bytes() {
        Some(FormatType::Plain)
    } else {
        None
    }
}

impl FormatType {
    /// Parse a wire spelling; any byte string outside the closed set is
    /// rejected.
    pub fn from_bytes(s: &[u8]) -> (r: Option<FormatType>)
        ensures
            r == spec_format_of(s@),
    {
        if crate::text::bytes_eq(s, "xml".as_bytes()) {
            Some(FormatType::Xml)
        } else if crate::text::bytes_eq(s, "json".as_bytes()) {
            Some(FormatType::Json)
        } else if crate::text::bytes_eq(s, "plain".as_bytes()) {
            Some(FormatType::Plain)
        } else {
            None
        }
    }

    /// The wire spelling of this format.
    pub fn to_bytes(&self) -> (r: Vec<u8>)
        ensures
            r@ == spec_format_bytes(*self),
    {
        match self {
            FormatType::Xml => vstd::slice::slice_to_vec("xml".as_bytes()),
            FormatType::Json => vstd::slice::slice_to_vec("json".as_bytes()),
            FormatType::Plain => vstd::slice::slice_to_vec("plain".as_bytes()),
        }
    }
}

impl core::str::FromStr for FormatType {
    type Err = MsgError;

    /// Parse the lowercased wire spelling of a format.
    fn from_str(s: &str) -> Result<FormatType, MsgError> {
        match FormatType::from_bytes(s.as_bytes()) {
            Some(f) => Ok(f),
            None => Err(MsgError::UnsupportedContentType),
        }
    }
}

/// The closed set of content types an ESL peer may send.
#[derive(Debug, PartialEq, Eq, Structural, Clone, Copy)]
pub enum ContentType {
    TextEventJson,
    TextDisconnectNotice,
    CommandReply,
    ApiResponse,
    TextEventPlain,
    AuthRequest,
}

/// The wire spelling of a content type.
pub open spec fn spec_content_type_bytes(t: ContentType) -> Seq<u8> {
    match t {
        ContentType::TextEventJson => ("text/event-json").spec_bytes(),
        ContentType::TextDisconnectNotice => ("text/disconnect-notice").spec_bytes(),
        ContentType::CommandReply => ("command/reply").spec_bytes(),
        ContentType::ApiResponse => ("api/response").spec_bytes(),
        ContentType::TextEventPlain => ("text/event-plain").spec_bytes(),
        ContentType::AuthRequest => ("auth/request").spec_bytes(),
    }
}

/// The content type whose wire spelling is `s`; any other value is a parse
/// error.
pub open spec fn spec_content_type_of(s: Seq<u8>) -> Option<ContentType> {
    if s == ("text/event-json").spec_bytes() {
        Some(ContentType::TextEventJson)
    } else if s == ("text/disconnect-notice").spec_bytes() {
        Some(ContentType::TextDisconnectNotice)
    } else if s == ("command/reply").spec_bytes() {
        Some(ContentType::CommandReply)
    } else if s == ("api/response").spec_bytes() {
        Some(ContentType::ApiResponse)
    } else if s == ("text/event-plain").spec_bytes() {
        Some(ContentType::TextEventPlain)
    } else if s == ("auth/request").spec_bytes() {
        Some(ContentType::AuthRequest)
    } else {
        None
    }
}

impl ContentType {
    /// Parse a wire spelling; any byte string outside the closed set is
    /// rejected.
    pub fn from_bytes(s: &[u8]) -> (r: Option<ContentType>)
        ensures
            r == spec_content_type_of(s@),
    {
        if crate::text::bytes_eq(s, "text/event-json".as_bytes()) {
            Some(ContentType::TextEventJson)
        } else if crate::text::bytes_eq(s, "text/disconnect-notice".as_bytes()) {
            Some(ContentType::TextDisconnectNotice)
        } else if crate::text::bytes_eq(s, "command/reply".as_bytes()) {
            Some(ContentType::CommandReply)
        } else if crate::text::bytes_eq(s, "api/response".as_bytes()) {
            Some(ContentType::ApiResponse)
        } else if crate::text::bytes_eq(s, "text/event-plain".as_bytes()) {
            Some(ContentType::TextEventPlain)
        } else if crate::text::bytes_eq(s, "auth/request".as_bytes()) {
            Some(ContentType::AuthRequest)
        } else {
            None
        }
    }

    /// The wire spelling of this content type.
    pub fn to_bytes(&self) -> (r: Vec<u8>)
        ensures
            r@ == spec_content_type_bytes(*self),
    {
        match self {
            ContentType::TextEventJson => vstd::slice::slice_to_vec("text/event-json".as_bytes()),
            ContentType::TextDisconnectNotice => vstd::slice::slice_to_vec(
                "text/disconnect-notice".as_bytes(),
            ),
            ContentType::CommandReply => vstd::slice::slice_to_vec("command/reply".as_bytes()),
            ContentType::ApiResponse => vstd::slice::slice_to_vec("api/response".as_bytes()),
            ContentType::TextEventPlain => vstd::slice::slice_to_vec("text/event-plain".as_bytes()),
            ContentType::AuthRequest => vstd::slice::slice_to_vec("auth/request".as_bytes()),
        }
    }
}

/// One parsed ESL message: ordered headers, and decoded event data when the
/// body was successfully decoded into key/value form.
#[derive(Debug)]
pub struct Message {
    /// The header fields, in wire order, later duplicates overwriting earlier
    /// ones.
    pub header: KvMap,
    /// The decoded body, when `Content-Type` called for decoding it.
    pub event_data: Option<EventData>,
}

/// The mathematical value of a [`Message`].
#[verifier::ext_equal]
pub struct SpecMessage {
    /// The header fields as key/value byte strings.
    pub header: Seq<(Seq<u8>, Seq<u8>)>,
    /// The decoded body fields, when present.
    pub event_data: Option<Seq<(Seq<u8>, Seq<u8>)>>,
}

impl View for Message {
    type V = SpecMessage;

    open spec fn view(&self) -> SpecMessage {
        SpecMessage {
            header: self.header@,
            event_data: match self.event_data {
                Some(ed) => Some(ed@),
                None => None,
            },
        }
    }
}

/// What serde_json parses an ESL event body into: the fields of the JSON
/// object that the byte string denotes, in document order, each value
/// rendered as text (a string as itself, a number or boolean as its decimal
/// spelling, anything else as the empty string); nothing when the bytes are
/// not a JSON object.
pub uninterp spec fn json_object_entries(s: Seq<u8>) -> Option<Seq<(Seq<u8>, Seq<u8>)>>;

/// The bytes serde_json serializes the given text fields to, as a JSON
/// object in field order with every value a JSON string.
pub uninterp spec fn json_of_entries(entries: Seq<(Seq<u8>, Seq<u8>)>) -> Seq<u8>;

/// All entries hold well-formed text: every key and value is valid UTF-8.
pub open spec fn entries_utf8(entries: Seq<(Seq<u8>, Seq<u8>)>) -> bool {
    forall|i: int|
        0 <= i < entries.len() ==> vstd::utf8::valid_utf8(#[trigger] entries[i].0)
            && vstd::utf8::valid_utf8(entries[i].1)
}

/// Parse a message body as a JSON object of text fields.
///
/// Relies on serde_json::from_slice for `Map<String, Value>`: it succeeds
/// exactly when the bytes are one JSON object, and yields its fields in
/// document order (the crate is built with its order-preserving map).
/// String, number and boolean values are rendered with their own `to_string`;
/// null, arrays and objects render as the empty string, as the event-data
/// field accessor of this library defines.
#[verifier::external_body]
pub(crate) fn parse_json_object(body: &[u8]) -> (r: Option<Vec<(Vec<u8>, Vec<u8>)>>)
    ensures
        match r {
            Some(v) => json_object_entries(body@) == Some(crate::event::pairs_view(v@)),
            None => json_object_entries(body@) is None,
        },
{
    let m: serde_json::Map<String, serde_json::Value> = match serde_json::from_slice(body) {
        Ok(m) => m,
        Err(_) => return None,
    };
    let mut out: Vec<(Vec<u8>, Vec<u8>)> = Vec::new();
    for (k, v) in m {
        let s = match v {
            serde_json::Value::String(s) => s,
            serde_json::Value::Number(n) => n.to_string(),
            serde_json::Value::Bool(b) => b.to_string(),
            _ => String::new(),
        };
        out.push((k.into_bytes(), s.into_bytes()));
    }
    Some(out)
}

/// Serialize text fields as one JSON object with string values.
///
/// Relies on serde_json::to_string for `Map<String, Value>`: it emits the
/// fields as a JSON object in map order (the crate is built with its
/// order-preserving map), and parsing that object back with serde_json
/// yields the same fields again; hence the round-trip clause, stated for
/// entries whose keys are distinct and whose keys and values are valid
/// UTF-8, the only entries a string map can carry faithfully.
#[verifier::external_body]
pub(crate) fn json_serialize_entries(entries: &Vec<(Vec<u8>, Vec<u8>)>) -> (r: Vec<u8>)
    ensures
        r@ == json_of_entries(crate::event::pairs_view(entries@)),
        crate::event::spec_kv_unique(crate::event::pairs_view(entries@)) && entries_utf8(
            crate::event::pairs_view(entries@),
        ) ==> json_object_entries(r@) == Some(crate::event::pairs_view(entries@)),
{
    let mut m = serde_json::Map::new();
    for p in entries {
        let key = String::from_utf8_lossy(&p.0).into_owned();
        let val = String::from_utf8_lossy(&p.1).into_owned();
        m.insert(key, serde_json::Value::String(val));
    }
    serde_json::to_string(&m).unwrap_or_default().into_bytes()
}

/// Percent-decode a message body.
///
/// Relies on urlencoding::decode_binary: each `%hh` escape becomes its byte,
/// malformed escapes are kept literally, and every other byte (`+`
/// included) passes through unchanged, exactly as
/// [`crate::text::spec_percent_decode`] states.
#[verifier::external_body]
pub(crate) fn percent_decode(b: &[u8]) -> (r: Vec<u8>)
    ensures
        r@ == crate::text::spec_percent_decode(b@),
{
    urlencoding::decode_binary(b).into_owned()
}

impl core::str::FromStr for ContentType {
    type Err = MsgError;

    /// Parse the wire spelling of a content type; any other value is a
    /// parse error.
    fn from_str(s: &str) -> Result<ContentType, MsgError> {
        match ContentType::from_bytes(s.as_bytes()) {
            Some(t) => Ok(t),
            None => Err(MsgError::UnsupportedContentType),
        }
    }
}

/// Split one header line at its first `:`; both sides are whitespace-trimmed.
/// A line without `:` yields nothing.
pub open spec fn spec_split_header_line(line: Seq<u8>) -> Option<(Seq<u8>, Seq<u8>)> {
    match spec_find(line, 0, 58) {
        Some(p) => Some(
            (spec_trim(line.subrange(0, p)), spec_trim(line.subrange(p + 1, line.len() as int))),
        ),
        None => None,
    }
}

/// Split one header line as `field : value` at the first `:`, trimming both
/// sides; a line without `:` is ignored.
pub fn parse_header_line(line: &[u8]) -> (r: Option<(Vec<u8>, Vec<u8>)>)
    ensures
        match r {
            Some(kv) => spec_split_header_line(line@) == Some((kv.0@, kv.1@)),
            None => spec_split_header_line(line@) is None,
        },
{
    let n = line.len();
    match crate::text::find_byte(line, 0, 58) {
        Some(p) => {
            let field = crate::text::trim_to_vec(line, 0, p);
            let value = crate::text::trim_to_vec(line, p + 1, n);
            Some((field, value))
        },
        None => None,
    }
}

/// `acc` extended by one parsed header line: inserted when the line has a
/// `:`, unchanged when it has none.
pub open spec fn spec_line_insert(
    acc: Seq<(Seq<u8>, Seq<u8>)>,
    line: Seq<u8>,
) -> Seq<(Seq<u8>, Seq<u8>)> {
    match spec_split_header_line(line) {
        Some(kv) => spec_kv_insert(acc, kv.0, kv.1),
        None => acc,
    }
}

/// The header block of the frame that starts at `i` in `s`, on top of the
/// fields `acc` already holds: lines terminated by `\n` are folded in until
/// a whitespace-only line ends the block; the result carries the position
/// just past that blank line. Nothing when no blank line has arrived yet.
pub open spec fn spec_headers(
    s: Seq<u8>,
    i: int,
    acc: Seq<(Seq<u8>, Seq<u8>)>,
) -> Option<(Seq<(Seq<u8>, Seq<u8>)>, int)>
    decreases s.len() - i,
{
    match spec_find(s, i, 10) {
        None => None,
        Some(j) => {
            if !(i <= j < s.len()) {
                None
            } else {
                let line = s.subrange(i, j);
                if spec_trim(line).len() == 0 {
                    Some((acc, j + 1))
                } else {
                    spec_headers(s, j + 1, spec_line_insert(acc, line))
                }
            }
        },
    }
}

/// The fields of an URL-decoded `text/event-plain` body, starting at `i` on
/// top of `acc`: every `\n`-separated line (the unterminated last one
/// included) is folded in as `field:value`.
pub open spec fn spec_plain_fields(
    s: Seq<u8>,
    i: int,
    acc: Seq<(Seq<u8>, Seq<u8>)>,
) -> Seq<(Seq<u8>, Seq<u8>)>
    decreases s.len() - i,
{
    match spec_find(s, i, 10) {
        None => {
            if 0 <= i <= s.len() {
                spec_line_insert(acc, s.subrange(i, s.len() as int))
            } else {
                acc
            }
        },
        Some(j) => {
            if !(i <= j < s.len()) {
                acc
            } else {
                spec_plain_fields(s, j + 1, spec_line_insert(acc, s.subrange(i, j)))
            }
        },
    }
}

/// Parse the header block of the frame starting at `start`: `Field: Value`
/// lines until a blank line. Fails with `Incomplete` when the buffer holds
/// no blank line yet.
pub fn parse_headers(buf: &[u8], start: usize) -> (r: Result<(KvMap, usize), MsgError>)
    requires
        start <= buf@.len(),
    ensures
        match r {
            Ok(hp) => {
                &&& spec_headers(buf@, start as int, Seq::empty()) == Some((hp.0@, hp.1 as int))
                &&& hp.0.wf()
                &&& start < hp.1 <= buf@.len()
            },
            Err(e) => {
                &&& e matches MsgError::Incomplete
                &&& spec_headers(buf@, start as int, Seq::empty()) is None
            },
        },
{
    let n = buf.len();
    let mut i: usize = start;
    let mut m = KvMap::new();
    loop
        invariant
            start <= i <= n,
            n == buf@.len(),
            m.wf(),
            spec_headers(buf@, start as int, Seq::<(Seq<u8>, Seq<u8>)>::empty()) == spec_headers(
                buf@,
                i as int,
                m@,
            ),
        decreases n - i,
    {
        match crate::text::find_byte(buf, i, 10) {
            None => {
                return Err(MsgError::Incomplete);
            },
            Some(j) => {
                let trimmed = crate::text::trim_to_vec(buf, i, j);
                if trimmed.len() == 0 {
                    return Ok((m, j + 1));
                }
                let line = crate::text::slice_range_to_vec(buf, i, j);
                match parse_header_line(line.as_slice()) {
                    Some(kv) => {
                        m.insert(kv.0, kv.1);
                    },
                    None => {},
                }
                i = j + 1;
            },
        }
    }
}

/// The framing of the bytes that start at `i` in `s`: either the frame is
/// not yet complete, or it splits into a header block, an optional body of
/// exactly `Content-Length` bytes, and the position just past the frame.
pub enum SpecFraming {
    /// The buffer does not yet hold one whole frame.
    Incomplete,
    /// One whole frame: its fields, its body bytes, its end position.
    Frame(Seq<(Seq<u8>, Seq<u8>)>, Option<Seq<u8>>, int),
}

/// Delimit the frame that starts at `i` in `s`: parse the header block,
/// then take as body exactly the number of bytes a well-formed
/// `Content-Length` header announces; a missing or malformed one means no
/// body.
pub open spec fn spec_frame_at(s: Seq<u8>, i: int) -> SpecFraming {
    match spec_headers(s, i, Seq::empty()) {
        None => SpecFraming::Incomplete,
        Some(hp) => match spec_kv_get(hp.0, ("Content-Length").spec_bytes()) {
            None => SpecFraming::Frame(hp.0, None, hp.1),
            Some(v) => match crate::text::spec_parse_usize(v) {
                None => SpecFraming::Frame(hp.0, None, hp.1),
                Some(len) => {
                    if hp.1 + len <= s.len() {
                        SpecFraming::Frame(hp.0, Some(s.subrange(hp.1, hp.1 + len)), hp.1 + len)
                    } else {
                        SpecFraming::Incomplete
                    }
                },
            },
        },
    }
}

/// The one-field event data that surfaces an error body: `Reply-Text`
/// mapped to `v`.
pub open spec fn spec_reply_text_entry(v: Seq<u8>) -> Seq<(Seq<u8>, Seq<u8>)> {
    seq![(("Reply-Text").spec_bytes(), v)]
}

/// The `-ERR` marker that flags a failure reply.
pub open spec fn spec_err_marker() -> Seq<u8> {
    ("-ERR").spec_bytes()
}

/// The event data a body of the given content type decodes to, or a body
/// parse failure. `text/event-json` takes the raw body; every other type
/// takes it URL-decoded first. A body carrying `-ERR` is surfaced as the
/// synthetic `Reply-Text` field instead of failing the parse.
pub open spec fn spec_dispatch(
    ct: ContentType,
    h: Seq<(Seq<u8>, Seq<u8>)>,
    body: Option<Seq<u8>>,
) -> Result<Option<Seq<(Seq<u8>, Seq<u8>)>>, MsgError> {
    match body {
        None => Ok(None),
        Some(b) => match ct {
            ContentType::TextEventJson => {
                if crate::text::spec_contains(b, spec_err_marker()) {
                    Ok(Some(spec_reply_text_entry(b)))
                } else {
                    match json_object_entries(b) {
                        Some(ed) => Ok(Some(ed)),
                        None => Err(MsgError::BodyParseFailed),
                    }
                }
            },
            ContentType::TextEventPlain => {
                let d = crate::text::spec_percent_decode(b);
                if crate::text::spec_contains(d, spec_err_marker()) {
                    Ok(Some(spec_reply_text_entry(d)))
                } else {
                    Ok(Some(spec_plain_fields(d, 0, Seq::empty())))
                }
            },
            ContentType::ApiResponse => {
                let d = crate::text::spec_percent_decode(b);
                let rt = spec_kv_get(h, ("Reply-Text").spec_bytes());
                if crate::text::spec_contains(d, spec_err_marker()) || (rt matches Some(v)
                    && crate::text::spec_contains(v, spec_err_marker())) {
                    Ok(Some(spec_reply_text_entry(match rt {
                        Some(v) => v,
                        None => d,
                    })))
                } else {
                    Ok(None)
                }
            },
            _ => Ok(None),
        },
    }
}

/// The event data of a frame with fields `h` and body `body`: nothing
/// without a `Content-Type`; a parse error when the type is outside the
/// closed set; else what the body decodes to under that type.
pub open spec fn spec_interpret(
    h: Seq<(Seq<u8>, Seq<u8>)>,
    body: Option<Seq<u8>>,
) -> Result<Option<Seq<(Seq<u8>, Seq<u8>)>>, MsgError> {
    match spec_kv_get(h, ("Content-Type").spec_bytes()) {
        None => Ok(None),
        Some(ctv) => match spec_content_type_of(ctv) {
            None => Err(MsgError::UnsupportedContentType),
            Some(ct) => spec_dispatch(ct, h, body),
        },
    }
}

/// Parsing one frame from `s` at `i`: the message it denotes and the
/// position of the next frame, or how it fails.
pub open spec fn spec_parse(s: Seq<u8>, i: int) -> Result<(SpecMessage, int), MsgError> {
    match spec_frame_at(s, i) {
        SpecFraming::Incomplete => Err(MsgError::Incomplete),
        SpecFraming::Frame(h, body, end) => match spec_interpret(h, body) {
            Ok(ed) => Ok((SpecMessage { header: h, event_data: ed }, end)),
            Err(e) => Err(e),
        },
    }
}

/// The event data surfacing an error body: `Reply-Text` mapped to `v`.
fn reply_text_map(v: Vec<u8>) -> (r: KvMap)
    ensures
        r@ == spec_reply_text_entry(v@),
        r.wf(),
{
    let mut m = KvMap::new();
    m.insert(vstd::slice::slice_to_vec("Reply-Text".as_bytes()), v);
    proof {
        assert(m@ =~= spec_reply_text_entry(v@));
    }
    m
}

/// Parse an URL-decoded `text/event-plain` body into its fields, one
/// `field:value` line at a time.
pub fn parse_plain_fields(body: &[u8]) -> (r: KvMap)
    ensures
        r@ == spec_plain_fields(body@, 0, Seq::empty()),
        r.wf(),
{
    let n = body.len();
    let mut i: usize = 0;
    let mut m = KvMap::new();
    loop
        invariant
            i <= n,
            n == body@.len(),
            m.wf(),
            spec_plain_fields(body@, 0, Seq::<(Seq<u8>, Seq<u8>)>::empty()) == spec_plain_fields(
                body@,
                i as int,
                m@,
            ),
        decreases n - i,
    {
        match crate::text::find_byte(body, i, 10) {
            None => {
                let line = crate::text::slice_range_to_vec(body, i, n);
                match parse_header_line(line.as_slice()) {
                    Some(kv) => {
                        m.insert(kv.0, kv.1);
                    },
                    None => {},
                }
                return m;
            },
            Some(j) => {
                let line = crate::text::slice_range_to_vec(body, i, j);
                match parse_header_line(line.as_slice()) {
                    Some(kv) => {
                        m.insert(kv.0, kv.1);
                    },
                    None => {},
                }
                i = j + 1;
            },
        }
    }
}

/// The view of an optional body.
pub open spec fn spec_opt_bytes(b: Option<Vec<u8>>) -> Option<Seq<u8>> {
    match b {
        Some(v) => Some(v@),
        None => None,
    }
}

/// The view of optional event data.
pub open spec fn spec_opt_kv(ed: Option<EventData>) -> Option<Seq<(Seq<u8>, Seq<u8>)>> {
    match ed {
        Some(m) => Some(m@),
        None => None,
    }
}

/// Decode a delimited body under its content type, as [`spec_dispatch`]
/// states.
fn dispatch_body(ct: ContentType, h: &KvMap, body: Option<Vec<u8>>) -> (r: Result<
    Option<EventData>,
    MsgError,
>)
    ensures
        match r {
            Ok(ed) => spec_dispatch(ct, h@, spec_opt_bytes(body)) == Ok::<
                Option<Seq<(Seq<u8>, Seq<u8>)>>,
                MsgError,
            >(spec_opt_kv(ed)),
            Err(e) => spec_dispatch(ct, h@, spec_opt_bytes(body)) == Err::<
                Option<Seq<(Seq<u8>, Seq<u8>)>>,
                MsgError,
            >(e),
        },
{
    let b = match body {
        Some(b) => b,
        None => {
            return Ok(None);
        },
    };
    match ct {
        ContentType::TextEventJson => {
            if crate::text::contains_seq(b.as_slice(), "-ERR".as_bytes()) {
                Ok(Some(reply_text_map(b)))
            } else {
                match parse_json_object(b.as_slice()) {
                    Some(v) => Ok(Some(KvMap::from_pairs(v))),
                    None => Err(MsgError::BodyParseFailed),
                }
            }
        },
        ContentType::TextEventPlain => {
            let d = percent_decode(b.as_slice());
            if crate::text::contains_seq(d.as_slice(), "-ERR".as_bytes()) {
                Ok(Some(reply_text_map(d)))
            } else {
                Ok(Some(parse_plain_fields(d.as_slice())))
            }
        },
        ContentType::ApiResponse => {
            let d = percent_decode(b.as_slice());
            let rt = h.get("Reply-Text".as_bytes());
            let body_err = crate::text::contains_seq(d.as_slice(), "-ERR".as_bytes());
            let rt_err = match &rt {
                Some(v) => crate::text::contains_seq(v.as_slice(), "-ERR".as_bytes()),
                None => false,
            };
            if body_err || rt_err {
                match rt {
                    Some(v) => Ok(Some(reply_text_map(v))),
                    None => Ok(Some(reply_text_map(d))),
                }
            } else {
                Ok(None)
            }
        },
        _ => Ok(None),
    }
}

/// Decode a delimited frame's body under its `Content-Type`, as
/// [`spec_interpret`] states.
pub fn interpret_frame(headers: &KvMap, body: Option<Vec<u8>>) -> (r: Result<
    Option<EventData>,
    MsgError,
>)
    ensures
        match r {
            Ok(ed) => spec_interpret(headers@, spec_opt_bytes(body)) == Ok::<
                Option<Seq<(Seq<u8>, Seq<u8>)>>,
                MsgError,
            >(spec_opt_kv(ed)),
            Err(e) => spec_interpret(headers@, spec_opt_bytes(body)) == Err::<
                Option<Seq<(Seq<u8>, Seq<u8>)>>,
                MsgError,
            >(e),
        },
{
    match headers.get("Content-Type".as_bytes()) {
        None => Ok(None),
        Some(ctv) => {
            match ContentType::from_bytes(ctv.as_slice()) {
                None => Err(MsgError::UnsupportedContentType),
                Some(ct) => dispatch_body(ct, headers, body),
            }
        },
    }
}

impl Message {
    /// Wrap headers and event data as one message.
    pub fn new(headers: KvMap, data: Option<EventData>) -> (r: Message)
        ensures
            r@.header == headers@,
            r@.event_data == spec_opt_kv(data),
    {
        Message { header: headers, event_data: data }
    }

    /// Delimit the frame at `start`: its header block, its body of exactly
    /// `Content-Length` bytes, and its end position; or `Incomplete` when
    /// the buffer does not yet hold the whole frame.
    pub fn parse_frame(buf: &[u8], start: usize) -> (r: Result<
        (KvMap, Option<Vec<u8>>, usize),
        MsgError,
    >)
        requires
            start <= buf@.len(),
        ensures
            match r {
                Ok(f) => {
                    &&& spec_frame_at(buf@, start as int) == SpecFraming::Frame(
                        f.0@,
                        spec_opt_bytes(f.1),
                        f.2 as int,
                    )
                    &&& f.0.wf()
                    &&& start < f.2 <= buf@.len()
                },
                Err(e) => {
                    &&& e matches MsgError::Incomplete
                    &&& spec_frame_at(buf@, start as int) is Incomplete
                },
            },
    {
        let n = buf.len();
        let (headers, hend) = match parse_headers(buf, start) {
            Ok(hp) => hp,
            Err(_) => {
                return Err(MsgError::Incomplete);
            },
        };
        let mut body: Option<Vec<u8>> = None;
        let mut end: usize = hend;
        match headers.get("Content-Length".as_bytes()) {
            Some(v) => {
                match crate::text::parse_usize(v.as_slice()) {
                    Some(len) => {
                        if len > n - hend {
                            return Err(MsgError::Incomplete);
                        }
                        body = Some(crate::text::slice_range_to_vec(buf, hend, hend + len));
                        end = hend + len;
                    },
                    None => {},
                }
            },
            None => {},
        }
        Ok((headers, body, end))
    }

    /// Parse one framed ESL message from `buf` at `start`.
    ///
    /// On success the returned position is the first byte of the next
    /// message: the frame's blank line plus exactly its `Content-Length`
    /// bytes have been consumed. `Incomplete` asks the caller for more
    /// bytes; `UnsupportedContentType` and `BodyParseFailed` reject this
    /// frame.
    pub fn parse(buf: &[u8], start: usize) -> (r: Result<(Message, usize), MsgError>)
        requires
            start <= buf@.len(),
        ensures
            match r {
                Ok(mp) => {
                    &&& spec_parse(buf@, start as int) == Ok::<(SpecMessage, int), MsgError>(
                        (mp.0@, mp.1 as int),
                    )
                    &&& mp.0.header.wf()
                    &&& start < mp.1 <= buf@.len()
                },
                Err(e) => spec_parse(buf@, start as int) == Err::<(SpecMessage, int), MsgError>(e),
            },
    {
        let (headers, body, end) = match Message::parse_frame(buf, start) {
            Ok(f) => f,
            Err(_) => {
                return Err(MsgError::Incomplete);
            },
        };
        match interpret_frame(&headers, body) {
            Ok(ed) => Ok((Message { header: headers, event_data: ed }, end)),
            Err(e) => Err(e),
        }
    }

    /// The value of header `k`, or the empty byte string when `k` is
    /// absent; a missing header is not a failure.
    pub fn get_header(&self, k: &[u8]) -> (r: Vec<u8>)
        ensures
            r@ == crate::event::spec_kv_get_or_empty(self@.header, k@),
    {
        match self.header.get(k) {
            Some(v) => v,
            None => Vec::new(),
        }
    }

    /// The `Unique-ID` field of the event data, when event data is present.
    pub fn get_uuid(&self) -> (r: Option<Vec<u8>>)
        ensures
            match self@.event_data {
                Some(ed) => r matches Some(v) && v@ == crate::event::spec_kv_get_or_empty(
                    ed,
                    ("Unique-ID").spec_bytes(),
                ),
                None => r is None,
            },
    {
        match &self.event_data {
            Some(ed) => Some(ed.get_header("Unique-ID".as_bytes())),
            None => None,
        }
    }
}

/// One serialized header line: `Field: Value` and a line feed.
pub open spec fn spec_header_line(k: Seq<u8>, v: Seq<u8>) -> Seq<u8> {
    k + seq![58u8, 32u8] + v + seq![10u8]
}

/// The serialized header lines of `m` from position `i` on.
pub open spec fn spec_header_lines(m: Seq<(Seq<u8>, Seq<u8>)>, i: int) -> Seq<u8>
    decreases m.len() - i,
{
    if i < 0 || i >= m.len() {
        Seq::empty()
    } else {
        spec_header_line(m[i].0, m[i].1) + spec_header_lines(m, i + 1)
    }
}

/// Serialize the header fields as `Field: Value` lines, in map order.
pub fn generate_headers(headers: &KvMap) -> (r: Vec<u8>)
    ensures
        r@ == spec_header_lines(headers@, 0),
{
    let n = headers.len();
    let mut out: Vec<u8> = Vec::new();
    let mut i: usize = 0;
    while i < n
        invariant
            i <= n,
            n == headers@.len(),
            out@ + spec_header_lines(headers@, i as int) == spec_header_lines(headers@, 0),
        decreases n - i,
    {
        let ghost out0 = out@;
        let p = headers.entry_at(i);
        crate::text::append_bytes(&mut out, p.0.as_slice());
        out.push(58u8);
        out.push(32u8);
        crate::text::append_bytes(&mut out, p.1.as_slice());
        out.push(10u8);
        i = i + 1;
        proof {
            assert(out@ =~= out0 + spec_header_line(headers@[i - 1].0, headers@[i - 1].1));
            assert(out@ + spec_header_lines(headers@, i as int) =~= out0 + spec_header_lines(
                headers@,
                i - 1,
            ));
        }
    }
    proof {
        assert(out@ + spec_header_lines(headers@, n as int) =~= out@);
    }
    out
}

/// The serialized `Content-Length` header for a body of `n` bytes.
pub open spec fn spec_content_length_line(n: int) -> Seq<u8> {
    ("Content-Length: ").spec_bytes() + crate::text::spec_decimal(n) + seq![10u8]
}

/// Serialize the `Content-Length` header line for `content`.
pub fn generate_content_length(content: &[u8]) -> (r: Vec<u8>)
    ensures
        r@ == spec_content_length_line(content@.len() as int),
{
    let mut out: Vec<u8> = vstd::slice::slice_to_vec("Content-Length: ".as_bytes());
    let digits = crate::text::decimal_bytes(content.len());
    crate::text::append_bytes(&mut out, digits.as_slice());
    out.push(10u8);
    proof {
        assert(out@ =~= spec_content_length_line(content@.len() as int));
    }
    out
}

/// Serialize a body: its bytes and a trailing line feed.
pub fn generate_content(content: &[u8]) -> (r: Vec<u8>)
    ensures
        r@ == content@ + seq![10u8],
{
    let mut out: Vec<u8> = vstd::slice::slice_to_vec(content);
    out.push(10u8);
    proof {
        assert(out@ =~= content@ + seq![10u8]);
    }
    out
}

/// The rendering of a message for display: its header lines, then its event
/// data serialized as JSON on a line of its own.
pub open spec fn spec_rendered(m: SpecMessage) -> Seq<u8> {
    spec_header_lines(m.header, 0) + (match m.event_data {
        Some(ed) => json_of_entries(ed) + seq![10u8],
        None => Seq::empty(),
    })
}

/// One whole wire frame for a message: its header lines, the blank line,
/// then its event data serialized as JSON as the body, when present.
pub open spec fn spec_serialized(m: SpecMessage) -> Seq<u8> {
    spec_header_lines(m.header, 0) + seq![10u8] + (match m.event_data {
        Some(ed) => json_of_entries(ed),
        None => Seq::empty(),
    })
}

impl Message {
    /// Render the message as text: header lines, then the event data as
    /// JSON on a line of its own.
    pub fn to_bytes(&self) -> (r: Vec<u8>)
        ensures
            r@ == spec_rendered(self@),
    {
        let mut out = generate_headers(&self.header);
        match &self.event_data {
            Some(ed) => {
                let json = json_serialize_entries(&ed.pairs());
                crate::text::append_bytes(&mut out, json.as_slice());
                out.push(10u8);
                proof {
                    assert(out@ =~= spec_rendered(self@));
                }
            },
            None => {
                proof {
                    assert(out@ =~= spec_rendered(self@));
                }
            },
        }
        out
    }

    /// Serialize the message as one wire frame: header lines, a blank line,
    /// then the JSON body when event data is present.
    pub fn serialize(&self) -> (r: Vec<u8>)
        ensures
            r@ == spec_serialized(self@),
    {
        let mut out = generate_headers(&self.header);
        out.push(10u8);
        match &self.event_data {
            Some(ed) => {
                let json = json_serialize_entries(&ed.pairs());
                crate::text::append_bytes(&mut out, json.as_slice());
                proof {
                    assert(out@ =~= spec_serialized(self@));
                }
            },
            None => {
                proof {
                    assert(out@ =~= spec_serialized(self@));
                }
            },
        }
        out
    }
}

/// A header field that survives the wire unchanged: name and value are
/// already trimmed, the name holds no `:` and no line feed, the value no
/// line feed.
pub open spec fn spec_field_wf(k: Seq<u8>, v: Seq<u8>) -> bool {
    &&& spec_trim(k) == k
    &&& spec_trim(v) == v
    &&& forall|t: int| 0 <= t < k.len() ==> k[t] != 58 && k[t] != 10
    &&& forall|t: int| 0 <= t < v.len() ==> v[t] != 10
}

/// A header block that survives the wire unchanged: distinct keys, each
/// field well formed.
pub open spec fn spec_headers_wf(h: Seq<(Seq<u8>, Seq<u8>)>) -> bool {
    &&& spec_kv_unique(h)
    &&& forall|i: int| 0 <= i < h.len() ==> #[trigger] spec_field_wf(h[i].0, h[i].1)
}

/// Parsing the serialized header lines of `h` from `idx` on, at position
/// `base` of `s` and with the first `idx` fields already folded in, yields
/// all of `h` and stops just past the blank line.
proof fn lemma_headers_roundtrip(s: Seq<u8>, base: int, h: Seq<(Seq<u8>, Seq<u8>)>, idx: int)
    requires
        spec_headers_wf(h),
        0 <= idx <= h.len(),
        0 <= base,
        base + spec_header_lines(h, idx).len() + 1 <= s.len(),
        s.subrange(base, base + spec_header_lines(h, idx).len() + 1) == spec_header_lines(h, idx)
            + seq![10u8],
    ensures
        spec_headers(s, base, h.take(idx)) == Some(
            (h, base + spec_header_lines(h, idx).len() + 1),
        ),
    decreases h.len() - idx,
{
    let lines = spec_header_lines(h, idx);
    let stop = base + lines.len() + 1;
    if idx == h.len() {
        assert(s[base] == (lines + seq![10u8])[0]) by {
            assert(s.subrange(base, stop)[0] == s[base]);
        }
        crate::text::lemma_find_at(s, base, base, 10);
        assert(s.subrange(base, base) =~= Seq::<u8>::empty());
        assert(spec_trim(Seq::<u8>::empty()).len() == 0);
        assert(h.take(idx) =~= h);
    } else {
        let k = h[idx].0;
        let v = h[idx].1;
        assert(spec_field_wf(k, v));
        let line0 = spec_header_line(k, v);
        let rest = spec_header_lines(h, idx + 1);
        let n0 = line0.len();
        assert(n0 == k.len() + v.len() + 3);
        let j = base + n0 - 1;
        assert forall|u: int| 0 <= u < lines.len() + 1 implies s[base + u] == (lines + seq![10u8])[u]
            by {
            assert(s.subrange(base, stop)[u] == s[base + u]);
        }
        assert(lines == line0 + rest);
        assert forall|u: int| 0 <= u < n0 implies s[base + u] == line0[u] by {
            assert((lines + seq![10u8])[u] == lines[u]);
            assert(lines[u] == line0[u]);
        }
        assert(s[j] == line0[n0 - 1]);
        assert(line0[n0 - 1] == 10);
        assert forall|t: int| base <= t < j implies s[t] != 10 by {
            let u = t - base;
            if u < k.len() {
                assert(line0[u] == k[u]);
            } else if u == k.len() {
                assert(line0[u] == 58);
            } else if u == k.len() + 1 {
                assert(line0[u] == 32);
            } else {
                assert(line0[u] == v[u - k.len() - 2]);
            }
        }
        crate::text::lemma_find_at(s, base, j, 10);
        let line = s.subrange(base, j);
        assert(line =~= k + seq![58u8, 32u8] + v);
        assert(line[k.len() as int] == 58);
        crate::text::lemma_trim_keeps_nonws(line, k.len() as int);
        assert forall|t: int| 0 <= t < k.len() implies line[t] != 58 by {
            assert(line[t] == k[t]);
        }
        crate::text::lemma_find_at(line, 0, k.len() as int, 58);
        assert(line.subrange(0, k.len() as int) =~= k);
        assert(line.subrange(k.len() as int + 1, line.len() as int) =~= seq![32u8] + v);
        crate::text::lemma_trim_space_prefix(v);
        assert(spec_split_header_line(line) == Some((k, v)));
        assert forall|t: int| 0 <= t < idx implies h.take(idx)[t].0 != k by {
            assert(h[t].0 != h[idx as int].0);
        }
        crate::event::lemma_kv_insert_absent(h.take(idx), k, v);
        assert(h.take(idx).push((k, v)) =~~= h.take(idx + 1));
        let base2 = base + n0;
        assert(s.subrange(base2, base2 + rest.len() + 1) =~= rest + seq![10u8]) by {
            assert forall|u: int| 0 <= u < rest.len() + 1 implies s.subrange(
                base2,
                base2 + rest.len() + 1,
            )[u] == (rest + seq![10u8])[u] by {
                assert(s.subrange(base2, base2 + rest.len() + 1)[u] == s[base2 + u]);
                assert(s[base2 + u] == (lines + seq![10u8])[n0 + u]);
                assert((lines + seq![10u8])[n0 + u] == (rest + seq![10u8])[u]) by {
                    if n0 + u < lines.len() {
                        assert(lines[n0 + u] == rest[u]);
                    }
                }
            }
        }
        lemma_headers_roundtrip(s, base2, h, idx + 1);
        assert(spec_headers(s, base, h.take(idx)) == spec_headers(s, base2, h.take(idx + 1)));
    }
}

/// A message that one serialized frame can carry faithfully. Its header
/// block is well formed; without event data it announces no parseable body
/// length and any content type it names is in the closed set; with event
/// data it is a `text/event-json` frame whose `Content-Length` matches the
/// JSON body, the body carries no `-ERR` marker, and parsing that JSON
/// yields the fields again.
pub open spec fn spec_msg_wf(m: SpecMessage) -> bool {
    &&& spec_headers_wf(m.header)
    &&& match m.event_data {
        None => {
            &&& match spec_kv_get(m.header, ("Content-Length").spec_bytes()) {
                Some(v) => crate::text::spec_parse_usize(v) is None,
                None => true,
            }
            &&& match spec_kv_get(m.header, ("Content-Type").spec_bytes()) {
                Some(ctv) => spec_content_type_of(ctv) is Some,
                None => true,
            }
        },
        Some(ed) => {
            let b = json_of_entries(ed);
            &&& spec_kv_get(m.header, ("Content-Type").spec_bytes()) == Some(
                ("text/event-json").spec_bytes(),
            )
            &&& b.len() <= usize::MAX
            &&& match spec_kv_get(m.header, ("Content-Length").spec_bytes()) {
                Some(v) => crate::text::spec_parse_usize(v) == Some(b.len() as usize),
                None => false,
            }
            &&& !crate::text::spec_contains(b, spec_err_marker())
            &&& json_object_entries(b) == Some(ed)
        },
    }
}

/// Round trip: parsing the serialization of a faithful message yields the
/// same headers and the same event data, and consumes the whole frame.
pub proof fn lemma_parse_serialize(m: SpecMessage)
    requires
        spec_msg_wf(m),
    ensures
        spec_parse(spec_serialized(m), 0) == Ok::<(SpecMessage, int), MsgError>(
            (m, spec_serialized(m).len() as int),
        ),
{
    let s = spec_serialized(m);
    let lines = spec_header_lines(m.header, 0);
    let body = match m.event_data {
        Some(ed) => json_of_entries(ed),
        None => Seq::<u8>::empty(),
    };
    assert(s == lines + seq![10u8] + body);
    assert(s.subrange(0, lines.len() as int + 1) =~= lines + seq![10u8]);
    assert(m.header.take(m.header.len() as int) =~= m.header);
    lemma_headers_roundtrip(s, 0, m.header, 0);
    assert(Seq::<(Seq<u8>, Seq<u8>)>::empty() =~= m.header.take(0));
    let hend = lines.len() as int + 1;
    assert(spec_headers(s, 0, Seq::empty()) == Some((m.header, hend)));
    match m.event_data {
        None => {
            assert(spec_frame_at(s, 0) == SpecFraming::Frame(m.header, None::<Seq<u8>>, hend));
            assert(s.len() == hend);
            match spec_kv_get(m.header, ("Content-Type").spec_bytes()) {
                None => {
                    assert(spec_parse(s, 0) == Ok::<(SpecMessage, int), MsgError>(
                        (SpecMessage { header: m.header, event_data: None }, hend),
                    ));
                },
                Some(ctv) => {
                    let ct = spec_content_type_of(ctv).unwrap();
                    assert(spec_dispatch(ct, m.header, None) == Ok::<
                        Option<Seq<(Seq<u8>, Seq<u8>)>>,
                        MsgError,
                    >(None));
                },
            }
            assert(SpecMessage { header: m.header, event_data: None } =~~= m);
        },
        Some(ed) => {
            assert(hend + body.len() == s.len());
            assert(s.subrange(hend, hend + body.len()) =~= body) by {
                assert forall|u: int| 0 <= u < body.len() implies s.subrange(
                    hend,
                    hend + body.len(),
                )[u] == body[u] by {
                    assert(s.subrange(hend, hend + body.len())[u] == s[hend + u]);
                    assert(s[hend + u] == (lines + seq![10u8] + body)[hend + u]);
                }
            }
            assert(spec_frame_at(s, 0) == SpecFraming::Frame(
                m.header,
                Some(body),
                hend + body.len(),
            ));
            assert(spec_content_type_of(("text/event-json").spec_bytes()) == Some(
                ContentType::TextEventJson,
            ));
            assert(spec_dispatch(ContentType::TextEventJson, m.header, Some(body)) == Ok::<
                Option<Seq<(Seq<u8>, Seq<u8>)>>,
                MsgError,
            >(Some(ed)));
            assert(SpecMessage { header: m.header, event_data: Some(ed) } =~~= m);
        },
    }
}

/// A parsed header block lies within the buffer: its end is past its start
/// and at most the buffer's length.
pub proof fn lemma_headers_bounds(s: Seq<u8>, i: int, acc: Seq<(Seq<u8>, Seq<u8>)>)
    requires
        0 <= i,
        spec_headers(s, i, acc) is Some,
    ensures
        i < spec_headers(s, i, acc).unwrap().1 <= s.len(),
    decreases s.len() - i,
{
    let j = spec_find(s, i, 10).unwrap();
    let line = s.subrange(i, j);
    if spec_trim(line).len() != 0 {
        lemma_headers_bounds(s, j + 1, spec_line_insert(acc, line));
    }
}

/// A complete header block is not disturbed by bytes appended after the
/// buffer.
proof fn lemma_headers_prefix(s1: Seq<u8>, s2: Seq<u8>, i: int, acc: Seq<(Seq<u8>, Seq<u8>)>)
    requires
        0 <= i,
        spec_headers(s1, i, acc) is Some,
    ensures
        spec_headers(s1 + s2, i, acc) == spec_headers(s1, i, acc),
    decreases s1.len() - i,
{
    let j = spec_find(s1, i, 10).unwrap();
    crate::text::lemma_find_prefix(s1, s2, i, 10);
    assert((s1 + s2).subrange(i, j) =~= s1.subrange(i, j));
    let line = s1.subrange(i, j);
    if spec_trim(line).len() != 0 {
        lemma_headers_prefix(s1, s2, j + 1, spec_line_insert(acc, line));
    }
}

/// A complete frame is not disturbed by bytes appended after the buffer:
/// later reads never change what an earlier frame meant.
pub proof fn lemma_frame_prefix(s1: Seq<u8>, s2: Seq<u8>, i: int)
    requires
        0 <= i,
        !(spec_frame_at(s1, i) is Incomplete),
    ensures
        spec_frame_at(s1 + s2, i) == spec_frame_at(s1, i),
{
    lemma_headers_prefix(s1, s2, i, Seq::empty());
    lemma_headers_bounds(s1, i, Seq::empty());
    let hp = spec_headers(s1, i, Seq::empty()).unwrap();
    match spec_kv_get(hp.0, ("Content-Length").spec_bytes()) {
        None => {},
        Some(v) => {
            match crate::text::spec_parse_usize(v) {
                None => {},
                Some(len) => {
                    assert(hp.1 + len <= s1.len());
                    assert((s1 + s2).subrange(hp.1, hp.1 + len) =~= s1.subrange(
                        hp.1,
                        hp.1 + len,
                    ));
                },
            }
        },
    }
}

/// URL-decoding is applied exactly once per frame: the fields of a
/// `text/event-plain` body are the line-parsed fields of its single decode,
/// and a body whose single decode still holds an escape (say `%20`, from a
/// doubly encoded `%2520`) keeps it, since nothing decodes the body again
/// ([`crate::text::lemma_percent_decode_identity`] states when a further
/// decode would even be visible).
pub proof fn lemma_decode_applied_once(h: Seq<(Seq<u8>, Seq<u8>)>, b: Seq<u8>)
    requires
        !crate::text::spec_contains(crate::text::spec_percent_decode(b), spec_err_marker()),
    ensures
        spec_dispatch(ContentType::TextEventPlain, h, Some(b)) == Ok::<
            Option<Seq<(Seq<u8>, Seq<u8>)>>,
            MsgError,
        >(Some(spec_plain_fields(crate::text::spec_percent_decode(b), 0, Seq::empty()))),
{
}

/// After a successful parse the position returned is the frame's boundary:
/// the end of the header block advanced by exactly the announced
/// `Content-Length`, when one is present and well formed.
pub proof fn lemma_parse_position(s: Seq<u8>, i: int)
    requires
        spec_parse(s, i) is Ok,
    ensures
        spec_headers(s, i, Seq::empty()) is Some,
        ({
            let hend = spec_headers(s, i, Seq::empty()).unwrap().1;
            let end = spec_parse(s, i).unwrap().1;
            match spec_kv_get(spec_headers(s, i, Seq::empty()).unwrap().0, (
            "Content-Length").spec_bytes()) {
                Some(v) => match crate::text::spec_parse_usize(v) {
                    Some(len) => end == hend + len,
                    None => end == hend,
                },
                None => end == hend,
            }
        }),
{
}

} // verus!
