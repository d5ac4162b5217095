use vstd::prelude::*;

use crate::message::{MessageView, ServerMessage};

verus! {

/// An observer is notified of every accepted message, for side effects only:
/// it may record the message, never alter or reject it. The server invokes the
/// registered observers in registration order, once per dispatched message,
/// before the message is handed to the delivery channel.
pub trait Observer: Sized {
    /// The messages this observer has been notified of, oldest first.
    spec fn observed(&self) -> Seq<MessageView>;

    /// Observes one message: exactly this message is appended to the record,
    /// and nothing else about the record changes.
    fn notify(&mut self, msg: &ServerMessage)
        ensures
            final(self).observed() == old(self).observed().push(msg@),
    ;
}

/// An observer that accumulates a copy of every message it sees, so that a
/// caller can inspect afterwards what was dispatched.
pub struct Recorder {
    seen: Vec<ServerMessage>,
}

impl Observer for Recorder {
    closed spec fn observed(&self) -> Seq<MessageView> {
        self.seen@.map_values(|m: ServerMessage| m@)
    }

    fn notify(&mut self, msg: &ServerMessage) {
        let copy = msg.duplicate();
        proof {
            self.seen@.lemma_push_map_commute(|m: ServerMessage| m@, copy);
        }
        self.seen.push(copy);
    }
}

impl Recorder {
    /// A recorder that has seen nothing yet.
    pub fn new() -> (r: Recorder)
        ensures
            r.observed() == Seq::<MessageView>::empty(),
    {
        let r = Recorder { seen: Vec::new() };
        proof {
            assert(r.seen@.map_values(|m: ServerMessage| m@) =~= Seq::<MessageView>::empty());
        }
        r
    }

    /// How many messages this recorder has observed.
    pub fn count(&self) -> (n: usize)
        ensures
            n == self.observed().len(),
    {
        self.seen.len()
    }

    /// The content of the `i`-th observed message, oldest first.
    pub fn content_at(&self, i: usize) -> (s: &String)
        requires
            i < self.observed().len(),
        ensures
            s@ == self.observed()[i as int].content,
    {
        &self.seen[i].content
    }

    /// The timestamp of the `i`-th observed message, oldest first.
    pub fn timestamp_at(&self, i: usize) -> (t: i64)
        requires
            i < self.observed().len(),
        ensures
            t as int == self.observed()[i as int].timestamp_millis,
    {
        self.seen[i].timestamp_millis
    }
}

} // verus!
