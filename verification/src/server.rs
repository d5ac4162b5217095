use vstd::prelude::*;

use crate::ext::channel_send;
use crate::message::{MessageView, ServerMessage};
use crate::observer::Observer;

verus! {

/// What one dispatch did.
#[derive(Clone, Copy, Debug, PartialEq, Eq, Structural)]
pub enum DispatchOutcome {
    /// Every observer ran and the message was enqueued for the consumer.
    Delivered,
    /// Every observer ran, but the receiving side of the channel was gone.
    ChannelClosed,
}

/// One step in the life of a server, oldest first.
pub enum Event {
    /// Observer number `observer` (counted in registration order from zero)
    /// was notified of `message`.
    Notified { observer: nat, message: MessageView },
    /// `message` was handed to the delivery channel.
    Forwarded { message: MessageView },
    /// The delivery channel refused `message`: its receiving side was gone.
    Refused { message: MessageView },
}

/// The notification events of one dispatch of `m` to `n` observers: observer
/// 0 first, observer `n - 1` last.
pub open spec fn notify_trace(n: nat, m: MessageView) -> Seq<Event> {
    Seq::new(n, |i: int| Event::Notified { observer: i as nat, message: m })
}

/// The event that closes a dispatch of `m`: the channel send, recorded with
/// its outcome.
pub open spec fn send_event(m: MessageView, outcome: DispatchOutcome) -> Event {
    if outcome == DispatchOutcome::Delivered {
        Event::Forwarded { message: m }
    } else {
        Event::Refused { message: m }
    }
}

/// Everything one dispatch of `m` to `n` observers appends to the log: each
/// observer notified in registration order, exactly once, and only then the
/// channel send.
pub open spec fn dispatch_trace(n: nat, m: MessageView, outcome: DispatchOutcome) -> Seq<Event> {
    notify_trace(n, m).push(send_event(m, outcome))
}

/// The fixed response text for each dispatch outcome.
pub open spec fn response_text_view(outcome: DispatchOutcome) -> Seq<char> {
    if outcome == DispatchOutcome::Delivered {
        "Message received"@
    } else {
        "Error processing message"@
    }
}

/// The fixed response text when exclusive access to the server could not be
/// had.
pub open spec fn lock_error_text_view() -> Seq<char> {
    "Server Error"@
}

/// Phrases a dispatch outcome for the HTTP caller.
pub fn response_text(outcome: DispatchOutcome) -> (resp: &'static str)
    ensures
        resp@ == response_text_view(outcome),
{
    match outcome {
        DispatchOutcome::Delivered => "Message received",
        DispatchOutcome::ChannelClosed => "Error processing message",
    }
}

/// The one server behind the HTTP surface: the ordered observers and the
/// sending half of the delivery channel.
pub struct MessageServer<O: Observer> {
    tx: tokio::sync::mpsc::Sender<ServerMessage>,
    handlers: Vec<O>,
    events: Ghost<Seq<Event>>,
}

/// How a completed dispatch of `m` relates the server after (`post`) to the
/// server before (`pre`): the channel is the same, no observer was added or
/// removed, each observer was notified of exactly `m` once, and the log grew
/// by the dispatch trace, which ends in the channel send.
pub open spec fn dispatch_post<O: Observer>(
    pre: MessageServer<O>,
    post: MessageServer<O>,
    m: MessageView,
    outcome: DispatchOutcome,
) -> bool {
    &&& post.sender() == pre.sender()
    &&& post.observers().len() == pre.observers().len()
    &&& forall|j: int|
        0 <= j < pre.observers().len() ==> (#[trigger] post.observers()[j]).observed()
            == pre.observers()[j].observed().push(m)
    &&& post.log() == pre.log() + dispatch_trace(pre.observers().len() as nat, m, outcome)
}

/// How a completed `handle_message` relates the server after (`post`) to the
/// server before (`pre`): some dispatch of `m` happened, and `resp` is the
/// fixed phrase for its outcome.
pub open spec fn handled_post<O: Observer>(
    pre: MessageServer<O>,
    post: MessageServer<O>,
    m: MessageView,
    resp: Seq<char>,
) -> bool {
    exists|outcome: DispatchOutcome|
        #[trigger] dispatch_post(pre, post, m, outcome) && resp == response_text_view(outcome)
}

impl<O: Observer> MessageServer<O> {
    /// The registered observers, in registration order.
    pub closed spec fn observers(&self) -> Seq<O> {
        self.handlers@
    }

    /// Everything this server has done, oldest first.
    pub closed spec fn log(&self) -> Seq<Event> {
        self.events@
    }

    /// The sending half of the delivery channel this server forwards into.
    pub closed spec fn sender(&self) -> tokio::sync::mpsc::Sender<ServerMessage> {
        self.tx
    }

    /// A server that forwards into the channel behind `tx`, with no observers
    /// registered and nothing done yet.
    pub fn new(tx: tokio::sync::mpsc::Sender<ServerMessage>) -> (server: Self)
        ensures
            server.sender() == tx,
            server.observers() == Seq::<O>::empty(),
            server.log() == Seq::<Event>::empty(),
    {
        MessageServer { tx, handlers: Vec::new(), events: Ghost(Seq::empty()) }
    }

    /// Registers one more observer. Every later dispatch will notify it, after
    /// all those registered before it.
    pub fn on_message(&mut self, handler: O)
        ensures
            final(self).observers() == old(self).observers().push(handler),
            final(self).log() == old(self).log(),
            final(self).sender() == old(self).sender(),
    {
        self.handlers.push(handler);
    }

    /// Runs every registered observer on `msg`, in registration order and
    /// exactly once each, then hands `msg` to the delivery channel; reports
    /// whether the channel accepted it.
    ///
    /// The channel send blocks while the channel is full, and panics on an
    /// asynchronous runtime's worker thread: an async front end must cross
    /// over with a blocking task.
    pub fn dispatch(&mut self, msg: ServerMessage) -> (outcome: DispatchOutcome)
        ensures
            dispatch_post(*old(self), *final(self), msg@, outcome),
    {
        let ghost m = msg@;
        let n = self.handlers.len();
        proof {
            assert(self.events@ =~= old(self).events@ + notify_trace(0, m));
        }
        let mut i: usize = 0;
        while i < n
            invariant
                i <= n,
                n == self.handlers@.len(),
                self.handlers@.len() == old(self).handlers@.len(),
                self.tx == old(self).tx,
                self.events@ == old(self).events@ + notify_trace(i as nat, m),
                forall|j: int|
                    0 <= j < i ==> (#[trigger] self.handlers@[j]).observed()
                        == old(self).handlers@[j].observed().push(m),
                forall|j: int| i <= j < n ==> self.handlers@[j] == old(self).handlers@[j],
                m == msg@,
            decreases n - i,
        {
            let handler = &mut self.handlers[i];
            handler.notify(&msg);
            self.events = Ghost(
                self.events@.push(Event::Notified { observer: i as nat, message: m }),
            );
            proof {
                assert(notify_trace((i + 1) as nat, m) =~= notify_trace(i as nat, m).push(
                    Event::Notified { observer: i as nat, message: m },
                ));
                assert(self.events@ =~= old(self).events@ + notify_trace((i + 1) as nat, m));
            }
            i += 1;
        }
        let delivered = match channel_send(&self.tx, msg) {
            Ok(_) => true,
            Err(_) => false,
        };
        let outcome = if delivered {
            DispatchOutcome::Delivered
        } else {
            DispatchOutcome::ChannelClosed
        };
        self.events = Ghost(self.events@.push(send_event(m, outcome)));
        proof {
            assert(self.events@ =~= old(self).events@ + dispatch_trace(n as nat, m, outcome));
        }
        outcome
    }

    /// Dispatches `msg` and phrases the outcome for the HTTP caller. Blocks
    /// and must stay off async worker threads, exactly as `dispatch` does.
    pub fn handle_message(&mut self, msg: ServerMessage) -> (resp: &'static str)
        ensures
            handled_post(*old(self), *final(self), msg@, resp@),
    {
        let outcome = self.dispatch(msg);
        response_text(outcome)
    }

    /// How many observers are registered.
    pub fn handler_count(&self) -> (n: usize)
        ensures
            n == self.observers().len(),
    {
        self.handlers.len()
    }

    /// The `i`-th registered observer, in registration order.
    pub fn handler_at(&self, i: usize) -> (handler: &O)
        requires
            i < self.observers().len(),
        ensures
            *handler == self.observers()[i as int],
    {
        &self.handlers[i]
    }
}

/// Law: a dispatch trace notifies the observers in registration order, exactly
/// once each, and only then records the channel send, as its last event.
pub proof fn lemma_dispatch_trace_order(n: nat, m: MessageView, outcome: DispatchOutcome)
    ensures
        dispatch_trace(n, m, outcome).len() == n + 1,
        forall|j: int|
            0 <= j < n ==> dispatch_trace(n, m, outcome)[j] == (Event::Notified {
                observer: j as nat,
                message: m,
            }),
        dispatch_trace(n, m, outcome)[n as int] == send_event(m, outcome),
{
}

/// Law: a delivered dispatch forwards the dispatched message unchanged; the
/// new log's last event carries exactly the message that was dispatched, with
/// content and timestamp preserved.
pub proof fn lemma_delivered_forwards_unchanged<O: Observer>(
    pre: MessageServer<O>,
    post: MessageServer<O>,
    m: MessageView,
)
    requires
        dispatch_post(pre, post, m, DispatchOutcome::Delivered),
    ensures
        post.log().len() == pre.log().len() + pre.observers().len() + 1,
        post.log().last() == (Event::Forwarded { message: m }),
{
}

/// Law: two dispatches in sequence keep first-in, first-out order: the log
/// records the first message's send strictly before the second's, and every
/// observer records the two messages in dispatch order.
pub proof fn lemma_dispatch_order_kept<O: Observer>(
    s0: MessageServer<O>,
    s1: MessageServer<O>,
    s2: MessageServer<O>,
    m1: MessageView,
    m2: MessageView,
    o1: DispatchOutcome,
    o2: DispatchOutcome,
)
    requires
        dispatch_post(s0, s1, m1, o1),
        dispatch_post(s1, s2, m2, o2),
    ensures
        s2.log().len() == s0.log().len() + 2 * s0.observers().len() + 2,
        s2.log()[s0.log().len() + s0.observers().len() as int] == send_event(m1, o1),
        s2.log()[s1.log().len() + s1.observers().len() as int] == send_event(m2, o2),
        s0.log().len() + s0.observers().len() < s1.log().len() + s1.observers().len(),
        forall|j: int|
            0 <= j < s0.observers().len() ==> (#[trigger] s2.observers()[j]).observed()
                == s0.observers()[j].observed().push(m1).push(m2),
{
}

/// Law: the three fixed responses are pairwise distinct, so a caller can tell
/// the outcomes apart by the text alone.
pub proof fn lemma_responses_distinct()
    ensures
        response_text_view(DispatchOutcome::Delivered) != response_text_view(
            DispatchOutcome::ChannelClosed,
        ),
        response_text_view(DispatchOutcome::Delivered) != lock_error_text_view(),
        response_text_view(DispatchOutcome::ChannelClosed) != lock_error_text_view(),
{
    reveal_strlit("Message received");
    reveal_strlit("Error processing message");
    reveal_strlit("Server Error");
    assert("Message received"@.len() == 16);
    assert("Error processing message"@.len() == 24);
    assert("Server Error"@.len() == 12);
}

} // verus!
