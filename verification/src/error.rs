//! The errors that a call on the bridge can end in.

use vstd::prelude::*;
use vstd::string::StringExecFns;

verus! {

/// Why a `send` or an `invoke` failed. Every error belongs to the call that
/// met it; the bridge keeps no error state.
#[derive(Debug)]
pub enum BridgeError {
    /// The outbound message could not be encoded. Nothing was written. Holds
    /// what the serialiser said.
    SerializationFailure(String),
    /// The write to the worker's input stream failed. Holds what the stream
    /// said.
    WriteFailure(String),
    /// The waiter was dropped without ever receiving a value.
    ResponseChannelClosed,
    /// The timeout elapsed before a reply arrived.
    InvokeTimeout,
}

/// The text that `BridgeError::message` returns.
pub open spec fn message_text(error: BridgeError) -> Seq<char> {
    match error {
        BridgeError::SerializationFailure(detail) => detail@,
        BridgeError::WriteFailure(detail) => "failed writing to sidecar stdin: "@ + detail@,
        BridgeError::ResponseChannelClosed => "bridge response channel closed"@,
        BridgeError::InvokeTimeout => "bridge invoke timeout"@,
    }
}

impl BridgeError {
    /// The message that the front end is shown for this error.
    pub fn message(&self) -> (text: String)
        ensures
            text@ == message_text(*self),
    {
        match self {
            BridgeError::SerializationFailure(detail) => detail.clone(),
            BridgeError::WriteFailure(detail) => {
                let mut text = String::from_str("failed writing to sidecar stdin: ");
                text.append(detail.as_str());
                text
            },
            BridgeError::ResponseChannelClosed => String::from_str(
                "bridge response channel closed",
            ),
            BridgeError::InvokeTimeout => String::from_str("bridge invoke timeout"),
        }
    }
}

} // verus!
