//! The framing codec: outbound messages become one line of JSON, and inbound
//! lines that carry the protocol marker become messages. Any other inbound
//! line is inert.

use crate::error::BridgeError;
use crate::json::{
    check_null, describe, get_member, get_string, is_null, make_string, member, parse_value,
    parsed_value, string_of, string_value, value_text, write_value,
};
use crate::text::{has_prefix, tail_from};
use vstd::prelude::*;
use vstd::string::StringExecFns;

verus! {

/// The two kinds of message that the host sends.
#[derive(Clone, Copy, Debug, PartialEq, Eq, Structural)]
pub enum MessageKind {
    /// Fire and forget.
    Send,
    /// A request whose reply is awaited on the reply channel.
    Invoke,
}

/// A message from the host to the worker.
pub struct OutboundMessage {
    pub kind: MessageKind,
    pub channel: String,
    pub payload: Option<serde_json::Value>,
}

/// A message from the worker to the host. The payload, where there is one,
/// is a string that holds JSON text of its own.
#[derive(Debug)]
pub struct InboundMessage {
    pub kind: String,
    pub channel: String,
    pub payload: Option<String>,
}

/// The model of an inbound message.
pub struct InboundModel {
    pub kind: Seq<char>,
    pub channel: Seq<char>,
    pub payload: Option<Seq<char>>,
}

impl View for InboundMessage {
    type V = InboundModel;

    open spec fn view(&self) -> InboundModel {
        InboundModel {
            kind: self.kind@,
            channel: self.channel@,
            payload: match self.payload {
                Some(raw) => Some(raw@),
                None => None,
            },
        }
    }
}

/// The marker that every protocol line of the worker begins with.
pub open spec fn marker_text() -> Seq<char> {
    "@@HYPRISM_IPC@@"@
}

/// The opening of an outbound line, up to the channel.
pub open spec fn line_head(kind: MessageKind) -> Seq<char> {
    match kind {
        MessageKind::Send => "{\"type\":\"send\",\"channel\":"@,
        MessageKind::Invoke => "{\"type\":\"invoke\",\"channel\":"@,
    }
}

/// The JSON text of an optional payload: `null` where there is none.
pub open spec fn payload_text(payload: Option<serde_json::Value>) -> Option<Seq<char>> {
    match payload {
        Some(value) => value_text(value),
        None => Some("null"@),
    }
}

/// The line that a message is encoded to: a JSON object with the members
/// `type`, `channel` and `payload`, in that order and without whitespace,
/// the channel written as a JSON string. `None` where the channel or the
/// payload cannot be serialised.
pub open spec fn encoded(
    kind: MessageKind,
    channel: Seq<char>,
    payload: Option<serde_json::Value>,
) -> Option<Seq<char>> {
    match (value_text(string_value(channel)), payload_text(payload)) {
        (Some(c), Some(p)) => Some(line_head(kind) + c + ",\"payload\":"@ + p + "}"@),
        _ => None,
    }
}

/// The message that a parsed JSON document stands for: an object whose
/// members `type` and `channel` are strings and whose member `payload` is a
/// string, `null` or missing. Anything else is no message.
pub open spec fn message_of(document: serde_json::Value) -> Option<InboundModel> {
    match (member(document, "type"@), member(document, "channel"@)) {
        (Some(t), Some(c)) => match (string_of(t), string_of(c)) {
            (Some(kind), Some(channel)) => match member(document, "payload"@) {
                None => Some(InboundModel { kind, channel, payload: None }),
                Some(p) => match string_of(p) {
                    Some(raw) => Some(InboundModel { kind, channel, payload: Some(raw) }),
                    None => if is_null(p) {
                        Some(InboundModel { kind, channel, payload: None })
                    } else {
                        None
                    },
                },
            },
            _ => None,
        },
        _ => None,
    }
}

/// What follows the marker on a protocol line; `None` for a line that does
/// not begin with the marker.
pub open spec fn body_of(line: Seq<char>) -> Option<Seq<char>> {
    if marker_text().is_prefix_of(line) {
        Some(line.skip(marker_text().len() as int))
    } else {
        None
    }
}

/// The message that an inbound line decodes to, if any.
pub open spec fn decoded(line: Seq<char>) -> Option<InboundModel> {
    match body_of(line) {
        Some(body) => match parsed_value(body) {
            Some(document) => message_of(document),
            None => None,
        },
        None => None,
    }
}

/// The protocol marker.
pub fn marker() -> (m: &'static str)
    ensures
        m@ == marker_text(),
        m@.len() == 15,
{
    proof {
        reveal_strlit("@@HYPRISM_IPC@@");
    }
    "@@HYPRISM_IPC@@"
}

/// Encodes an outbound message as one line of text, without a line end.
pub fn encode(message: &OutboundMessage) -> (result: Result<String, BridgeError>)
    ensures
        match encoded(message.kind, message.channel@, message.payload) {
            Some(line) => result matches Ok(s) && s@ == line,
            None => result matches Err(e) && e is SerializationFailure,
        },
{
    let mut line = match message.kind {
        MessageKind::Send => String::from_str("{\"type\":\"send\",\"channel\":"),
        MessageKind::Invoke => String::from_str("{\"type\":\"invoke\",\"channel\":"),
    };
    match write_value(&make_string(message.channel.as_str())) {
        Ok(channel) => line.append(channel.as_str()),
        Err(e) => {
            return Err(BridgeError::SerializationFailure(describe(&e)));
        },
    }
    line.append(",\"payload\":");
    match &message.payload {
        Some(value) => match write_value(value) {
            Ok(payload) => line.append(payload.as_str()),
            Err(e) => {
                return Err(BridgeError::SerializationFailure(describe(&e)));
            },
        },
        None => line.append("null"),
    }
    line.append("}");
    Ok(line)
}

/// Strips the marker from a protocol line. Returns `None` for any line that
/// does not begin with the marker.
pub fn strip_marker(line: &str) -> (body: Option<&str>)
    ensures
        body is Some <==> marker_text().is_prefix_of(line@),
        match body {
            Some(b) => body_of(line@) == Some(b@),
            None => body_of(line@) is None,
        },
{
    let m = marker();
    if has_prefix(line, m) {
        Some(tail_from(line, 15))
    } else {
        None
    }
}

/// Reads the members of a parsed document into a message.
pub fn read_message(document: &serde_json::Value) -> (message: Option<InboundMessage>)
    ensures
        match message {
            Some(m) => message_of(*document) == Some(m@),
            None => message_of(*document) is None,
        },
{
    let kind = match get_member(document, "type") {
        Some(t) => match get_string(t) {
            Some(s) => String::from_str(s),
            None => {
                return None;
            },
        },
        None => {
            return None;
        },
    };
    let channel = match get_member(document, "channel") {
        Some(c) => match get_string(c) {
            Some(s) => String::from_str(s),
            None => {
                return None;
            },
        },
        None => {
            return None;
        },
    };
    let payload = match get_member(document, "payload") {
        None => None,
        Some(p) => match get_string(p) {
            Some(raw) => Some(String::from_str(raw)),
            None => {
                if !check_null(p) {
                    return None;
                }
                None
            },
        },
    };
    Some(InboundMessage { kind, channel, payload })
}

/// Decodes one inbound line. Returns `None` unless the line begins with the
/// marker and the rest parses as a message; a malformed line is no error.
pub fn decode(line: &str) -> (message: Option<InboundMessage>)
    ensures
        match message {
            Some(m) => decoded(line@) == Some(m@),
            None => decoded(line@) is None,
        },
        !marker_text().is_prefix_of(line@) ==> message is None,
{
    match strip_marker(line) {
        Some(body) => match parse_value(body) {
            Ok(document) => read_message(&document),
            Err(_) => None,
        },
        None => None,
    }
}

} // verus!
