//! What crosses to a host runtime: the server's events under the names that
//! the binding exports, and the key material of a biometric unlock.

use crate::server::{Message, MessageType};
use vstd::prelude::*;

verus! {

/// The parts of the key that protects a secret behind a biometric check,
/// each in base64.
#[derive(Clone, Debug, PartialEq, Eq)]
pub struct KeyMaterial {
    /// The part that the operating system holds.
    pub os_key_part_b64: String,
    /// The part that the client holds, where there is one.
    pub client_key_part_b64: Option<String>,
}

/// A key that the operating system derived, with the challenge it was
/// derived from, each in base64.
#[derive(Clone, Debug, PartialEq, Eq)]
pub struct OsDerivedKey {
    /// The key.
    pub key_b64: String,
    /// The challenge.
    pub iv_b64: String,
}

/// What an event is about, as the host sees it.
#[derive(Clone, Copy, Debug, PartialEq, Eq, Structural)]
pub enum IpcMessageType {
    /// A client connected.
    Connected,
    /// A client went away.
    Disconnected,
    /// A client sent a payload.
    Message,
}

/// One event of the server, as the host sees it.
#[derive(Debug)]
pub struct IpcMessage {
    /// The client that the event is about.
    pub client_id: u32,
    /// What happened.
    pub kind: IpcMessageType,
    /// The payload; for the two lifecycle events, their name.
    pub message: String,
}

/// The host's name for a kind of event.
pub open spec fn host_kind(message_type: MessageType) -> IpcMessageType {
    match message_type {
        MessageType::Connected => IpcMessageType::Connected,
        MessageType::Disconnected => IpcMessageType::Disconnected,
        MessageType::Message => IpcMessageType::Message,
    }
}

/// An event as the host sees it: every field as it was.
pub open spec fn host_message(message: Message) -> IpcMessage {
    IpcMessage {
        client_id: message.client_id,
        kind: host_kind(message.kind),
        message: message.message,
    }
}

impl From<MessageType> for IpcMessageType {
    fn from(message_type: MessageType) -> (kind: IpcMessageType) {
        match message_type {
            MessageType::Connected => IpcMessageType::Connected,
            MessageType::Disconnected => IpcMessageType::Disconnected,
            MessageType::Message => IpcMessageType::Message,
        }
    }
}

impl vstd::std_specs::convert::FromSpecImpl<MessageType> for IpcMessageType {
    open spec fn obeys_from_spec() -> bool {
        true
    }

    open spec fn from_spec(message_type: MessageType) -> IpcMessageType {
        host_kind(message_type)
    }
}

impl From<Message> for IpcMessage {
    fn from(message: Message) -> (host: IpcMessage) {
        IpcMessage {
            client_id: message.client_id,
            kind: IpcMessageType::from(message.kind),
            message: message.message,
        }
    }
}

impl vstd::std_specs::convert::FromSpecImpl<Message> for IpcMessage {
    open spec fn obeys_from_spec() -> bool {
        true
    }

    open spec fn from_spec(message: Message) -> IpcMessage {
        host_message(message)
    }
}

/// Every kind of event keeps its meaning on the way to the host, and no two
/// kinds become one.
pub proof fn lemma_kind_conversion_injective(a: MessageType, b: MessageType)
    requires
        host_kind(a) == host_kind(b),
    ensures
        a == b,
{
}

} // verus!
