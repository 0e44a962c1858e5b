//! A verified client library for the FreeSWITCH Event Socket Layer (ESL): a
//! line-oriented, header+body text protocol used to control a media server
//! and to consume its asynchronous event stream.
//!
//! The core pieces are the streaming frame parser and the in-memory message
//! value with its header map ([`message`]), the closed enumerations of
//! content types, body formats and event names ([`event`]), the pure
//! decision logic of a full-duplex session ([`session`]), and the
//! authenticating client facade ([`client`]).

pub mod client;
pub mod event;
pub mod message;
pub mod session;
pub mod text;
