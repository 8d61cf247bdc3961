//! The message listener's decision logic.
//!
//! The listener consumes the secure session's event stream in a background
//! execution context. For each event it decides, from the event alone,
//! whether a message is forwarded through the relay: a payload that decodes
//! as UTF-8 is forwarded as text, anything else is dropped and listening
//! continues. Stream errors are never fatal to the listener.

use vstd::prelude::*;
use crate::relay::Relay;

verus! {

/// One event taken from the secure session's stream, reduced to what the
/// listener's decision reads: a stream error, a received payload, or any
/// other connection-state event.
pub enum ListenerEvent {
    Failed,
    Received(Vec<u8>),
    Other,
}

/// What `String::from_utf8` decodes a byte sequence to: the decoded text
/// exactly when the bytes are valid UTF-8, nothing otherwise. The result
/// depends on the bytes alone.
pub uninterp spec fn utf8_decode(bytes: Seq<u8>) -> Option<Seq<char>>;

/// Relies on `String::from_utf8` of std: returns the decoded text exactly
/// when the bytes are valid UTF-8.
#[verifier::external_body]
fn decode_utf8(bytes: Vec<u8>) -> (r: Option<String>)
    ensures
        match r {
            Some(s) => utf8_decode(bytes@) == Some(s@),
            None => utf8_decode(bytes@) is None,
        },
{
    match String::from_utf8(bytes) {
        Ok(s) => Some(s),
        Err(_) => None,
    }
}

/// Decodes one received payload: the text exactly when the payload is valid
/// UTF-8, nothing otherwise.
pub fn decode_message(payload: Vec<u8>) -> (r: Option<String>)
    ensures
        match r {
            Some(s) => utf8_decode(payload@) == Some(s@),
            None => utf8_decode(payload@) is None,
        },
{
    decode_utf8(payload)
}

/// Handles one event of the stream: a received payload that decodes as
/// UTF-8 is forwarded through the relay as exactly one message equal to the
/// decoded text; a payload that does not decode, a stream error, or any
/// other event forwards nothing. The listener keeps listening in every
/// case, so handling never terminates the stream loop.
pub fn handle_event(relay: &mut Relay, event: ListenerEvent) -> (forwarded: bool)
    ensures
        match event {
            ListenerEvent::Received(p) => match utf8_decode(p@) {
                Some(t) => forwarded && final(relay).messages() == old(relay).messages().push(t),
                None => !forwarded && final(relay).messages() == old(relay).messages(),
            },
            _ => !forwarded && final(relay).messages() == old(relay).messages(),
        },
{
    match event {
        ListenerEvent::Received(payload) => {
            match decode_message(payload) {
                Some(text) => {
                    relay.send(text);
                    true
                },
                None => false,
            }
        },
        _ => false,
    }
}

} // verus!
