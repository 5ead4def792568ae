//! Text messages exchanged with a peer.
use vstd::prelude::*;
use crate::ids::{new_uuid_v4_value, now_millis, uuid_text, uuid_to_string};
use crate::proto::TextMessage;

verus! {

/// Whether a message was sent to the peer or received from it.
#[derive(Clone, Copy, Debug, PartialEq, Eq, Structural)]
pub enum Direction {
    Sent,
    Received,
}

/// A text message of a conversation with a peer.
#[derive(Debug)]
pub struct Message {
    pub uuid: String,
    pub remote_uuid: String,
    pub direction: Direction,
    /// Milliseconds since the Unix epoch when the message was made.
    pub timestamp: u64,
    pub content: String,
}

impl Clone for Message {
    fn clone(&self) -> (r: Message)
        ensures
            r == *self,
    {
        Message {
            uuid: self.uuid.clone(),
            remote_uuid: self.remote_uuid.clone(),
            direction: self.direction,
            timestamp: self.timestamp,
            content: self.content.clone(),
        }
    }
}

impl Message {
    /// A message with the given UUID value and timestamp.
    pub fn new_with(
        remote_uuid: String,
        direction: Direction,
        content: String,
        uuid_value: u128,
        timestamp: u64,
    ) -> (r: Message)
        ensures
            r.uuid@ == uuid_text(uuid_value),
            r.remote_uuid == remote_uuid,
            r.direction == direction,
            r.timestamp == timestamp,
            r.content == content,
    {
        Message { uuid: uuid_to_string(uuid_value), remote_uuid, direction, timestamp, content }
    }

    /// A new message, with a fresh random UUID and the current time.
    pub fn new(remote_uuid: String, direction: Direction, content: String) -> (r: Message)
        ensures
            exists|v: u128| r.uuid@ == uuid_text(v),
            r.remote_uuid == remote_uuid,
            r.direction == direction,
            r.content == content,
    {
        let v = new_uuid_v4_value();
        let t = now_millis();
        Message::new_with(remote_uuid, direction, content, v, t)
    }

    /// The wire form of the message, sent as the service `service_id`.
    pub fn as_proto(&self, service_id: &str) -> (r: TextMessage)
        ensures
            r.ident@ == service_id@,
            r.timestamp == self.timestamp,
            r.message == self.content,
    {
        TextMessage {
            ident: crate::text::to_owned_string(service_id),
            timestamp: self.timestamp,
            message: self.content.clone(),
        }
    }

    /// The message that a received wire message stands for, with the given
    /// UUID value and timestamp: from the sender, received, with its text.
    pub fn from_text_message_with(value: &TextMessage, uuid_value: u128, timestamp: u64) -> (r:
        Message)
        ensures
            r.uuid@ == uuid_text(uuid_value),
            r.remote_uuid == value.ident,
            r.direction == Direction::Received,
            r.timestamp == timestamp,
            r.content == value.message,
    {
        Message::new_with(
            value.ident.clone(),
            Direction::Received,
            value.message.clone(),
            uuid_value,
            timestamp,
        )
    }

    /// The message that a received wire message stands for, with a fresh
    /// UUID and the current time.
    pub fn from_text_message(value: &TextMessage) -> (r: Message)
        ensures
            exists|v: u128| r.uuid@ == uuid_text(v),
            r.remote_uuid == value.ident,
            r.direction == Direction::Received,
            r.content == value.message,
    {
        let v = new_uuid_v4_value();
        let t = now_millis();
        Message::from_text_message_with(value, v, t)
    }
}

/// A message sent as the service `service_id` is received as a message
/// from that service, with the same text.
pub proof fn law_message_round_trip(m: Message, service_id: Seq<char>, wire: TextMessage, back: Message)
    requires
        wire.ident@ == service_id,
        wire.timestamp == m.timestamp,
        wire.message == m.content,
        back.remote_uuid == wire.ident,
        back.direction == Direction::Received,
        back.content == wire.message,
    ensures
        back.content == m.content,
        back.remote_uuid@ == service_id,
        back.direction == Direction::Received,
{
}

} // verus!
