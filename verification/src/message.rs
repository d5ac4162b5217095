use vstd::prelude::*;

use crate::ext::now_timestamp_millis;

verus! {

/// The mathematical value of a message: its text and the moment it was
/// accepted, in milliseconds since the Unix epoch.
pub struct MessageView {
    pub content: Seq<char>,
    pub timestamp_millis: int,
}

/// A message accepted by the relay. It is constructed at the moment a request
/// is accepted and immutable thereafter: observers may look at it, never
/// change it.
pub struct ServerMessage {
    pub content: String,
    pub timestamp_millis: i64,
}

impl View for ServerMessage {
    type V = MessageView;

    open spec fn view(&self) -> MessageView {
        MessageView { content: self.content@, timestamp_millis: self.timestamp_millis as int }
    }
}

impl ServerMessage {
    /// Builds a message carrying `content`, stamped with the wall clock at the
    /// moment of construction. Construction cannot fail; the timestamp is
    /// whatever the clock gave.
    pub fn new(content: String) -> (msg: ServerMessage)
        ensures
            msg@.content == content@,
    {
        let timestamp_millis = now_timestamp_millis();
        ServerMessage { content, timestamp_millis }
    }

    /// Builds a message with the given timestamp instead of the clock's.
    pub fn with_timestamp(content: String, timestamp_millis: i64) -> (msg: ServerMessage)
        ensures
            msg@ == (MessageView { content: content@, timestamp_millis: timestamp_millis as int }),
    {
        ServerMessage { content, timestamp_millis }
    }

    /// An identical copy: observers keep copies while the original moves on
    /// into the delivery channel.
    pub fn duplicate(&self) -> (msg: ServerMessage)
        ensures
            msg@ == self@,
    {
        ServerMessage { content: self.content.clone(), timestamp_millis: self.timestamp_millis }
    }
}

} // verus!
