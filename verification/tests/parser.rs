//! The frame parser on its own: framing, header rules, body rules, errors.

use esl::event::EventHandler;
use esl::message::{
    generate_content, generate_content_length, generate_headers, parse_header_line, ContentType,
    FormatType, Message, MsgError,
};

#[test]
fn headers_only_frame() {
    let bytes = b"Content-Type: auth/request\n\n";
    let (m, p) = Message::parse(bytes, 0).unwrap();
    assert_eq!(p, bytes.len());
    assert_eq!(m.get_header(b"Content-Type"), b"auth/request".to_vec());
    assert!(m.event_data.is_none());
}

#[test]
fn missing_header_reads_as_empty() {
    let bytes = b"Content-Type: auth/request\n\n";
    let (m, _) = Message::parse(bytes, 0).unwrap();
    assert_eq!(m.get_header(b"Nothing-Here"), Vec::<u8>::new());
}

#[test]
fn carriage_returns_are_stripped() {
    let bytes = b"Content-Type: auth/request\r\n\r\n";
    let (m, p) = Message::parse(bytes, 0).unwrap();
    assert_eq!(p, bytes.len());
    assert_eq!(m.get_header(b"Content-Type"), b"auth/request".to_vec());
}

#[test]
fn header_values_trim_and_split_on_first_colon() {
    assert_eq!(
        parse_header_line(b"  Reply-Text :  +OK job:started  "),
        Some((b"Reply-Text".to_vec(), b"+OK job:started".to_vec()))
    );
    assert_eq!(parse_header_line(b"no colon here"), None);
}

#[test]
fn lines_without_colon_are_ignored() {
    let bytes = b"garbage line\nContent-Type: auth/request\n\n";
    let (m, _) = Message::parse(bytes, 0).unwrap();
    assert_eq!(m.get_header(b"Content-Type"), b"auth/request".to_vec());
}

#[test]
fn duplicate_fields_last_wins() {
    let bytes = b"Reply-Text: first\nReply-Text: second\nContent-Type: command/reply\n\n";
    let (m, _) = Message::parse(bytes, 0).unwrap();
    assert_eq!(m.get_header(b"Reply-Text"), b"second".to_vec());
}

#[test]
fn incomplete_without_blank_line() {
    let bytes = b"Content-Type: auth/request\n";
    assert!(matches!(Message::parse(bytes, 0), Err(MsgError::Incomplete)));
}

#[test]
fn incomplete_short_body() {
    let bytes = b"Content-Type: api/response\nContent-Length: 10\n\nabc";
    assert!(matches!(Message::parse(bytes, 0), Err(MsgError::Incomplete)));
}

#[test]
fn unparseable_content_length_means_no_body() {
    let bytes = b"Content-Type: command/reply\nContent-Length: ten\nReply-Text: +OK\n\n";
    let (m, p) = Message::parse(bytes, 0).unwrap();
    assert_eq!(p, bytes.len());
    assert!(m.event_data.is_none());
}

#[test]
fn oversized_content_length_means_no_body() {
    let bytes = b"Content-Type: command/reply\nContent-Length: 99999999999999999999999\n\n";
    let (m, p) = Message::parse(bytes, 0).unwrap();
    assert_eq!(p, bytes.len());
    assert!(m.event_data.is_none());
}

#[test]
fn content_length_with_plus_sign_parses() {
    let bytes = b"Content-Type: api/response\nContent-Length: +2\n\nok";
    let (_, p) = Message::parse(bytes, 0).unwrap();
    assert_eq!(p, bytes.len());
}

#[test]
fn unsupported_content_type_is_rejected() {
    let bytes = b"Content-Type: text/html\n\n";
    assert!(matches!(
        Message::parse(bytes, 0),
        Err(MsgError::UnsupportedContentType)
    ));
}

#[test]
fn bad_json_body_fails_parse() {
    let bytes = b"Content-Type: text/event-json\nContent-Length: 8\n\nnot json";
    assert!(matches!(
        Message::parse(bytes, 0),
        Err(MsgError::BodyParseFailed)
    ));
}

#[test]
fn err_marker_in_json_body_synthesizes_reply_text() {
    let bytes = b"Content-Type: text/event-json\nContent-Length: 12\n\n-ERR oh dear";
    let (m, _) = Message::parse(bytes, 0).unwrap();
    let ed = m.event_data.as_ref().unwrap();
    assert_eq!(ed.get_header(b"Reply-Text"), b"-ERR oh dear".to_vec());
}

#[test]
fn command_reply_err_body_is_noted_not_failed() {
    let bytes = b"Content-Type: command/reply\nContent-Length: 12\n\n-ERR oh dear";
    let (m, p) = Message::parse(bytes, 0).unwrap();
    assert_eq!(p, bytes.len());
    assert!(m.event_data.is_none());
}

#[test]
fn api_response_err_prefers_reply_text_header() {
    let bytes = b"Content-Type: api/response\nReply-Text: -ERR denied\nContent-Length: 2\n\nok";
    let (m, _) = Message::parse(bytes, 0).unwrap();
    let ed = m.event_data.as_ref().unwrap();
    assert_eq!(ed.get_header(b"Reply-Text"), b"-ERR denied".to_vec());
}

#[test]
fn api_response_success_keeps_no_event_data() {
    let bytes = b"Content-Type: api/response\nContent-Length: 2\n\nok";
    let (m, _) = Message::parse(bytes, 0).unwrap();
    assert!(m.event_data.is_none());
}

#[test]
fn plain_body_decodes_exactly_once() {
    // One decode turns %253A into %3A; only a second, forbidden decode
    // would turn that into a colon.
    let body = b"k%3A%20v%2520x";
    let frame = format!(
        "Content-Type: text/event-plain\nContent-Length: {}\n\n",
        body.len()
    );
    let mut bytes = frame.into_bytes();
    bytes.extend_from_slice(body);
    let (m, _) = Message::parse(&bytes, 0).unwrap();
    let ed = m.event_data.as_ref().unwrap();
    assert_eq!(ed.get_header(b"k"), b"v%20x".to_vec());
}

#[test]
fn plain_body_with_err_synthesizes_reply_text() {
    let body = b"-ERR%20bad";
    let frame = format!(
        "Content-Type: text/event-plain\nContent-Length: {}\n\n",
        body.len()
    );
    let mut bytes = frame.into_bytes();
    bytes.extend_from_slice(body);
    let (m, _) = Message::parse(&bytes, 0).unwrap();
    let ed = m.event_data.as_ref().unwrap();
    assert_eq!(ed.get_header(b"Reply-Text"), b"-ERR bad".to_vec());
}

#[test]
fn parse_starts_at_given_offset() {
    let bytes = b"XXXContent-Type: auth/request\n\n";
    let (m, p) = Message::parse(bytes, 3).unwrap();
    assert_eq!(p, bytes.len());
    assert_eq!(m.get_header(b"Content-Type"), b"auth/request".to_vec());
}

#[test]
fn content_type_wire_spellings() {
    assert_eq!(
        ContentType::from_bytes(b"text/event-json"),
        Some(ContentType::TextEventJson)
    );
    assert_eq!(
        ContentType::from_bytes(b"text/event-plain"),
        Some(ContentType::TextEventPlain)
    );
    assert_eq!(
        ContentType::from_bytes(b"text/disconnect-notice"),
        Some(ContentType::TextDisconnectNotice)
    );
    assert_eq!(
        ContentType::from_bytes(b"command/reply"),
        Some(ContentType::CommandReply)
    );
    assert_eq!(
        ContentType::from_bytes(b"api/response"),
        Some(ContentType::ApiResponse)
    );
    assert_eq!(
        ContentType::from_bytes(b"auth/request"),
        Some(ContentType::AuthRequest)
    );
    assert_eq!(ContentType::from_bytes(b"text/html"), None);
    assert_eq!(
        ContentType::TextEventJson.to_bytes(),
        b"text/event-json".to_vec()
    );
    assert_eq!(
        ContentType::CommandReply.to_bytes(),
        b"command/reply".to_vec()
    );
}

#[test]
fn format_type_wire_spellings() {
    assert_eq!(FormatType::from_bytes(b"xml"), Some(FormatType::Xml));
    assert_eq!(FormatType::from_bytes(b"json"), Some(FormatType::Json));
    assert_eq!(FormatType::from_bytes(b"plain"), Some(FormatType::Plain));
    assert_eq!(FormatType::from_bytes(b"Plain"), None);
    assert_eq!(FormatType::Xml.to_bytes(), b"xml".to_vec());
    assert_eq!(FormatType::Json.to_bytes(), b"json".to_vec());
    assert_eq!(FormatType::Plain.to_bytes(), b"plain".to_vec());
}

#[test]
fn from_str_spellings() {
    assert!(matches!("json".parse::<FormatType>(), Ok(FormatType::Json)));
    assert!(matches!(
        "Json".parse::<FormatType>(),
        Err(MsgError::UnsupportedContentType)
    ));
    assert!(matches!(
        "auth/request".parse::<ContentType>(),
        Ok(ContentType::AuthRequest)
    ));
    assert!(matches!(
        "text/html".parse::<ContentType>(),
        Err(MsgError::UnsupportedContentType)
    ));
}

#[test]
fn generated_header_lines() {
    let mut h = esl::event::KvMap::new();
    h.insert(b"Content-Type".to_vec(), b"auth/request".to_vec());
    assert_eq!(generate_headers(&h), b"Content-Type: auth/request\n".to_vec());
    assert_eq!(
        generate_content_length(b"0123456789"),
        b"Content-Length: 10\n".to_vec()
    );
    assert_eq!(generate_content_length(b""), b"Content-Length: 0\n".to_vec());
    assert_eq!(generate_content(b"body"), b"body\n".to_vec());
}
