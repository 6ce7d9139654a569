//! The dispatch loop's decisions: what one event from the worker means for
//! the waiter registry and for the subscribers. The loop itself, which reads
//! the events and publishes the envelopes, lives with the caller.

use crate::codec::{decode, decoded, marker_text, InboundMessage, InboundModel};
use crate::error::BridgeError;
use crate::json::{
    copy_value, describe, make_null, make_string, null_value, parse_value, parsed_value,
    string_value, value_text, write_value,
};
use crate::registry::{oldest, resolved, well_formed, Pending, WaiterRegistry};
use crate::text::{decode_lossy, lossy_text, trim, trimmed};
use crate::waiter::{resolve, ReplySlot};
use vstd::prelude::*;
use vstd::string::StringExecFns;

verus! {

/// What every subscriber is told of an inbound `emit`.
#[derive(Debug)]
pub struct Envelope {
    pub channel: String,
    pub payload: serde_json::Value,
    pub resolved_pending_invoke: bool,
}

/// The model of an envelope.
pub struct EnvelopeModel {
    pub channel: Seq<char>,
    pub payload: serde_json::Value,
    pub resolved_pending_invoke: bool,
}

impl View for Envelope {
    type V = EnvelopeModel;

    open spec fn view(&self) -> EnvelopeModel {
        EnvelopeModel {
            channel: self.channel@,
            payload: self.payload,
            resolved_pending_invoke: self.resolved_pending_invoke,
        }
    }
}

/// The state of the dispatch loop.
#[derive(Clone, Copy, Debug, PartialEq, Eq, Structural)]
pub enum LoopState {
    Running,
    /// The worker has exited or its output has closed. Nothing leads back.
    Terminated,
}

/// One event from the worker.
pub enum WorkerEvent {
    /// A chunk of the worker's standard output: one line.
    Stdout(Vec<u8>),
    /// A chunk of the worker's diagnostic output.
    Stderr(Vec<u8>),
    /// The worker has exited.
    Terminated,
    /// The event stream has closed.
    Closed,
    /// Any other event.
    Other,
}

/// What the loop does after an event.
pub enum LoopAction {
    /// Nothing.
    Skip,
    /// Publish this envelope to every subscriber.
    Publish(Envelope),
    /// Log the diagnostic output; it is never parsed.
    Diagnose,
    /// Report the termination and leave the loop.
    Stop,
}

/// The structured value of a payload string: what it parses to, and `null`
/// where there is no payload or it does not parse.
pub open spec fn payload_value(payload: Option<Seq<char>>) -> serde_json::Value {
    match payload {
        Some(raw) => match parsed_value(raw) {
            Some(value) => value,
            None => null_value(),
        },
        None => null_value(),
    }
}

/// Whether a message is an `emit`, the only kind that is dispatched.
pub open spec fn is_emit(message: InboundModel) -> bool {
    message.kind == "emit"@
}

/// The envelope that an `emit` is published in, given the registry that it
/// met.
pub open spec fn envelope_of<W>(pending: Pending<W>, message: InboundModel) -> EnvelopeModel {
    EnvelopeModel {
        channel: message.channel,
        payload: payload_value(message.payload),
        resolved_pending_invoke: oldest(pending, message.channel) is Some,
    }
}

/// The line that a chunk of standard output holds: its text, trimmed.
pub open spec fn line_of(bytes: Seq<u8>) -> Seq<char> {
    trimmed(lossy_text(bytes))
}

/// The `emit` that a chunk of standard output carries, if any: the line is
/// not empty, decodes to a message, and the message is an `emit`.
pub open spec fn emit_of(bytes: Seq<u8>) -> Option<InboundModel> {
    let line = line_of(bytes);
    if line.len() == 0 {
        None
    } else {
        match decoded(line) {
            Some(message) => if is_emit(message) {
                Some(message)
            } else {
                None
            },
            None => None,
        }
    }
}

/// The state after an event: the loop runs until the worker exits or the
/// stream closes, and never runs again.
pub open spec fn next_state(state: LoopState, event: WorkerEvent) -> LoopState {
    match state {
        LoopState::Terminated => LoopState::Terminated,
        LoopState::Running => match event {
            WorkerEvent::Terminated | WorkerEvent::Closed => LoopState::Terminated,
            _ => LoopState::Running,
        },
    }
}

/// The JSON text of an envelope: an object with the members `channel`,
/// `payload` and `resolvedPendingInvoke`, in that order and without
/// whitespace. `None` where a member cannot be serialised.
pub open spec fn envelope_text(envelope: EnvelopeModel) -> Option<Seq<char>> {
    match (value_text(string_value(envelope.channel)), value_text(envelope.payload)) {
        (Some(c), Some(p)) => Some(
            "{\"channel\":"@ + c + ",\"payload\":"@ + p + ",\"resolvedPendingInvoke\":"@ + (
            if envelope.resolved_pending_invoke {
                "true"@
            } else {
                "false"@
            }) + "}"@,
        ),
        _ => None,
    }
}

/// The script that raises the bridge event on a rendering surface.
pub open spec fn script_text(json: Seq<char>) -> Seq<char> {
    "window.dispatchEvent(new CustomEvent('hyprism:bridge:event', { detail: "@ + json + " }));"@
}

/// The name under which envelopes are published.
pub fn event_name() -> (name: &'static str)
    ensures
        name@ == "hyprism:bridge:event"@,
{
    "hyprism:bridge:event"
}

/// Decodes the payload string of an `emit` a second time, into the
/// structured value that it holds.
pub fn decode_payload(payload: &Option<String>) -> (value: serde_json::Value)
    ensures
        value == payload_value(
            match *payload {
                Some(raw) => Some(raw@),
                None => None,
            },
        ),
{
    match payload {
        Some(raw) => match parse_value(raw.as_str()) {
            Ok(value) => value,
            Err(_) => make_null(),
        },
        None => make_null(),
    }
}

/// Dispatches one decoded message. An `emit` resolves the oldest waiter on
/// its channel, if there is one, and is published whether or not it did. Any
/// other message changes nothing and publishes nothing.
pub fn dispatch(registry: &mut WaiterRegistry<ReplySlot>, message: InboundMessage) -> (envelope:
    Option<Envelope>)
    ensures
        well_formed(final(registry)@),
        is_emit(message@) ==> {
            &&& final(registry)@ == resolved(old(registry)@, message@.channel)
            &&& envelope matches Some(e)
            &&& e@ == envelope_of(old(registry)@, message@)
        },
        !is_emit(message@) ==> final(registry)@ == old(registry)@ && envelope is None,
{
    let emit = String::from_str("emit");
    if message.kind != emit {
        proof {
            use_type_invariant(&*registry);
            registry.valid_is_well_formed();
        }
        return None;
    }
    let payload = decode_payload(&message.payload);
    let found = resolve(registry, message.channel.as_str(), copy_value(&payload));
    Some(Envelope { channel: message.channel, payload, resolved_pending_invoke: found })
}

/// Dispatches one chunk of standard output: trims it, skips an empty line
/// and any line that is not a protocol message, and dispatches the rest.
pub fn dispatch_line(registry: &mut WaiterRegistry<ReplySlot>, bytes: &[u8]) -> (envelope: Option<
    Envelope,
>)
    ensures
        well_formed(final(registry)@),
        match emit_of(bytes@) {
            Some(message) => {
                &&& final(registry)@ == resolved(old(registry)@, message.channel)
                &&& envelope matches Some(e)
                &&& e@ == envelope_of(old(registry)@, message)
            },
            None => final(registry)@ == old(registry)@ && envelope is None,
        },
        !marker_text().is_prefix_of(line_of(bytes@)) ==> final(registry)@ == old(registry)@
            && envelope is None,
{
    proof {
        use_type_invariant(&*registry);
        registry.valid_is_well_formed();
    }
    let text = decode_lossy(bytes);
    let line = trim(text.as_str());
    if line.is_empty() {
        return None;
    }
    match decode(line) {
        Some(message) => dispatch(registry, message),
        None => None,
    }
}

/// One turn of the dispatch loop: the state after `event` and what to do
/// about it. Only standard output reaches the registry, and only while the
/// loop runs.
pub fn step(state: LoopState, registry: &mut WaiterRegistry<ReplySlot>, event: WorkerEvent) -> (next:
    (LoopState, LoopAction))
    ensures
        next.0 == next_state(state, event),
        well_formed(final(registry)@),
        match (state, event) {
            (LoopState::Running, WorkerEvent::Stdout(bytes)) => match emit_of(bytes@) {
                Some(message) => {
                    &&& final(registry)@ == resolved(old(registry)@, message.channel)
                    &&& next.1 matches LoopAction::Publish(e)
                    &&& e@ == envelope_of(old(registry)@, message)
                },
                None => final(registry)@ == old(registry)@ && next.1 is Skip,
            },
            (LoopState::Running, WorkerEvent::Stderr(_)) => final(registry)@ == old(registry)@
                && next.1 is Diagnose,
            (LoopState::Running, WorkerEvent::Terminated) | (
                LoopState::Running,
                WorkerEvent::Closed,
            ) => final(registry)@ == old(registry)@ && next.1 is Stop,
            _ => final(registry)@ == old(registry)@ && next.1 is Skip,
        },
{
    proof {
        use_type_invariant(&*registry);
        registry.valid_is_well_formed();
    }
    match state {
        LoopState::Terminated => (LoopState::Terminated, LoopAction::Skip),
        LoopState::Running => match event {
            WorkerEvent::Stdout(bytes) => match dispatch_line(registry, bytes.as_slice()) {
                Some(envelope) => (LoopState::Running, LoopAction::Publish(envelope)),
                None => (LoopState::Running, LoopAction::Skip),
            },
            WorkerEvent::Stderr(_) => (LoopState::Running, LoopAction::Diagnose),
            WorkerEvent::Terminated => (LoopState::Terminated, LoopAction::Stop),
            WorkerEvent::Closed => (LoopState::Terminated, LoopAction::Stop),
            WorkerEvent::Other => (LoopState::Running, LoopAction::Skip),
        },
    }
}

/// Serialises an envelope for a rendering surface.
pub fn envelope_json(envelope: &Envelope) -> (result: Result<String, BridgeError>)
    ensures
        match envelope_text(envelope@) {
            Some(text) => result matches Ok(s) && s@ == text,
            None => result matches Err(e) && e is SerializationFailure,
        },
{
    let mut text = String::from_str("{\"channel\":");
    match write_value(&make_string(envelope.channel.as_str())) {
        Ok(channel) => text.append(channel.as_str()),
        Err(e) => {
            return Err(BridgeError::SerializationFailure(describe(&e)));
        },
    }
    text.append(",\"payload\":");
    match write_value(&envelope.payload) {
        Ok(payload) => text.append(payload.as_str()),
        Err(e) => {
            return Err(BridgeError::SerializationFailure(describe(&e)));
        },
    }
    text.append(",\"resolvedPendingInvoke\":");
    if envelope.resolved_pending_invoke {
        text.append("true");
    } else {
        text.append("false");
    }
    text.append("}");
    Ok(text)
}

/// The script that raises the bridge event, with the envelope's JSON text as
/// its detail.
pub fn event_script(json: &str) -> (script: String)
    ensures
        script@ == script_text(json@),
{
    let mut script = String::from_str(
        "window.dispatchEvent(new CustomEvent('hyprism:bridge:event', { detail: ",
    );
    script.append(json);
    script.append(" }));");
    script
}

} // verus!
