//! The bridge connection: what `send` and `invoke` write to the worker, what
//! they register before writing, and how an invocation ends.

use crate::codec::{encode, encoded, MessageKind, OutboundMessage};
use crate::error::BridgeError;
use crate::registry::{enqueued, well_formed, WaiterRegistry};
use vstd::prelude::*;
use vstd::string::StringExecFns;

verus! {

/// How long an invocation waits where the caller names no timeout, in
/// milliseconds.
pub const DEFAULT_TIMEOUT_MS: u64 = 30_000;

/// The channel on which the reply to an invocation on `channel` arrives.
pub open spec fn reply_channel_of(channel: Seq<char>) -> Seq<char> {
    channel + ":reply"@
}

/// An encoded line as it is written to the worker: the line and a line feed.
pub open spec fn framed(line: Seq<char>) -> Seq<char> {
    line + "\n"@
}

/// What is written for a message: its encoded line, framed. `None` where the
/// message cannot be encoded.
pub open spec fn written_for(
    kind: MessageKind,
    channel: Seq<char>,
    payload: Option<serde_json::Value>,
) -> Option<Seq<char>> {
    match encoded(kind, channel, payload) {
        Some(line) => Some(framed(line)),
        None => None,
    }
}

/// The reply channel of `channel`: the name with `:reply` appended.
pub fn reply_channel(channel: &str) -> (reply: String)
    ensures
        reply@ == reply_channel_of(channel@),
{
    let mut reply = String::from_str(channel);
    reply.append(":reply");
    reply
}

/// Ends an encoded line with a line feed.
pub fn frame(line: String) -> (text: String)
    ensures
        text@ == framed(line@),
{
    let mut text = line;
    text.append("\n");
    text
}

/// The timeout of an invocation in milliseconds: the one asked for, or the
/// default.
pub fn timeout_ms(requested: Option<u64>) -> (ms: u64)
    ensures
        ms == match requested {
            Some(t) => t,
            None => DEFAULT_TIMEOUT_MS,
        },
{
    match requested {
        Some(t) => t,
        None => DEFAULT_TIMEOUT_MS,
    }
}

fn outgoing(kind: MessageKind, channel: String, payload: Option<serde_json::Value>) -> (result:
    Result<String, BridgeError>)
    ensures
        match written_for(kind, channel@, payload) {
            Some(text) => result matches Ok(s) && s@ == text,
            None => result matches Err(e) && e is SerializationFailure,
        },
{
    let message = OutboundMessage { kind, channel, payload };
    match encode(&message) {
        Ok(line) => Ok(frame(line)),
        Err(e) => Err(e),
    }
}

/// Prepares a fire-and-forget message: the text to write to the worker's
/// input stream, one line with its line feed. Fails, before anything is
/// written, where the message cannot be encoded.
pub fn prepare_send(channel: String, payload: Option<serde_json::Value>) -> (result: Result<
    String,
    BridgeError,
>)
    ensures
        match written_for(MessageKind::Send, channel@, payload) {
            Some(text) => result matches Ok(s) && s@ == text,
            None => result matches Err(e) && e is SerializationFailure,
        },
{
    outgoing(MessageKind::Send, channel, payload)
}

/// Begins an invocation: registers `waiter` on the reply channel first, so
/// that no reply can arrive before it is registered, and then prepares the
/// text to write. The waiter stays registered even where encoding fails.
pub fn begin_invoke<W>(
    registry: &mut WaiterRegistry<W>,
    channel: String,
    payload: Option<serde_json::Value>,
    waiter: W,
) -> (result: Result<String, BridgeError>)
    ensures
        final(registry)@ == enqueued(old(registry)@, reply_channel_of(channel@), waiter),
        well_formed(final(registry)@),
        match written_for(MessageKind::Invoke, channel@, payload) {
            Some(text) => result matches Ok(s) && s@ == text,
            None => result matches Err(e) && e is SerializationFailure,
        },
{
    let reply = reply_channel(channel.as_str());
    registry.enqueue(reply, waiter);
    outgoing(MessageKind::Invoke, channel, payload)
}

/// What became of the write of one line: `Ok`, or the stream's own words.
pub fn written(outcome: Result<(), String>) -> (result: Result<(), BridgeError>)
    ensures
        match outcome {
            Ok(_) => result is Ok,
            Err(detail) => result == Err::<(), BridgeError>(BridgeError::WriteFailure(detail)),
        },
{
    match outcome {
        Ok(_) => Ok(()),
        Err(detail) => Err(BridgeError::WriteFailure(detail)),
    }
}

/// How the wait of an invocation ended. Exactly one of the three happens.
pub enum WaitOutcome {
    /// The waiter was resolved with this value.
    Delivered(serde_json::Value),
    /// The waiter was dropped without a value.
    Closed,
    /// The timeout elapsed first.
    TimedOut,
}

/// The result of an invocation, from how its wait ended.
pub fn conclude(outcome: WaitOutcome) -> (result: Result<serde_json::Value, BridgeError>)
    ensures
        match outcome {
            WaitOutcome::Delivered(value) => result == Ok::<serde_json::Value, BridgeError>(value),
            WaitOutcome::Closed => result == Err::<serde_json::Value, BridgeError>(
                BridgeError::ResponseChannelClosed,
            ),
            WaitOutcome::TimedOut => result == Err::<serde_json::Value, BridgeError>(
                BridgeError::InvokeTimeout,
            ),
        },
{
    match outcome {
        WaitOutcome::Delivered(value) => Ok(value),
        WaitOutcome::Closed => Err(BridgeError::ResponseChannelClosed),
        WaitOutcome::TimedOut => Err(BridgeError::InvokeTimeout),
    }
}

} // verus!
