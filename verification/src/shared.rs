use vstd::prelude::*;

use std::sync::Arc;
use std::sync::Mutex;

use crate::ext::{lock_and_run, new_lock_slot};
use crate::message::{MessageView, ServerMessage};
use crate::observer::Observer;
use crate::server::{
    dispatch_post, handled_post, lock_error_text_view, response_text_view, DispatchOutcome,
    MessageServer,
};

verus! {

/// Exclusive access to the server could not be had: the lock was poisoned by a
/// prior holder that failed while holding it.
#[derive(Clone, Copy, Debug, PartialEq, Eq, Structural)]
pub struct LockError;

/// Holds when `y` is one of `f`'s own admissible results on some value `t0`
/// that `f` was run on, leaving some value `t1` behind.
pub open spec fn ran_on_some_value<T, R, F: FnOnce(T) -> (T, R)>(f: F, y: R) -> bool {
    exists|t0: T, t1: T| call_ensures(f, (t0,), (t1, y))
}

/// A shared, mutually exclusive handle to the one `MessageServer` behind the
/// HTTP surface. Every concurrent request task holds a clone of this handle,
/// and every clone shares the one server the handle was constructed around;
/// at most one of them works on the server at a time. The slot is empty only
/// while an exclusive holder runs, and is filled again before the lock is
/// released.
#[verifier::reject_recursive_types(O)]
pub struct ServerState<O: Observer> {
    lock: Arc<Mutex<Option<MessageServer<O>>>>,
    initial: Ghost<MessageServer<O>>,
}

impl<O: Observer> Clone for ServerState<O> {
    /// A clone is a handle to the same server: it carries the same
    /// construction-time server value.
    fn clone(&self) -> (r: Self)
        ensures
            r.wrapped() == self.wrapped(),
    {
        ServerState { lock: Arc::clone(&self.lock), initial: self.initial }
    }
}

impl<O: Observer> ServerState<O> {
    /// The server value this handle was constructed around. The live server
    /// behind the lock evolves with every dispatch; this is its value at
    /// construction time.
    pub closed spec fn wrapped(&self) -> MessageServer<O> {
        self.initial@
    }

    /// Wraps the given server — exactly it, unchanged — for sharing among
    /// concurrent request tasks.
    pub fn new(server: MessageServer<O>) -> (r: Self)
        ensures
            r.wrapped() == server,
    {
        let ghost initial = server;
        ServerState { lock: Arc::new(new_lock_slot(server)), initial: Ghost(initial) }
    }

    /// Runs `f` on the server under the lock: at most one such call works on
    /// the server at a time. An `Ok` result is one of `f`'s own admissible
    /// outcomes on some server value; `Err(LockError)` is answered when the
    /// lock was poisoned.
    ///
    /// `f` must not use this handle (or a clone of it) itself: taking the lock
    /// again on the same thread panics or deadlocks, as std documents.
    pub fn with_exclusive_access<R, F: FnOnce(MessageServer<O>) -> (MessageServer<O>, R)>(
        &self,
        f: F,
    ) -> (r: Result<R, LockError>)
        requires
            forall|s: MessageServer<O>| call_requires(f, (s,)),
        ensures
            r matches Ok(y) ==> ran_on_some_value(f, y),
            r matches Err(e) ==> e == LockError,
    {
        match lock_and_run(&self.lock, f) {
            Some(y) => Ok(y),
            None => Err(LockError),
        }
    }
}

/// What a finished request promises: either exclusive access failed and the
/// caller was told so, or some dispatch of a message carrying exactly
/// `payload` happened, and the response is the fixed phrase for its outcome.
pub open spec fn request_post<O: Observer>(payload: Seq<char>, resp: Seq<char>) -> bool {
    ||| resp == lock_error_text_view()
    ||| exists|pre: MessageServer<O>, post: MessageServer<O>, ts: int, outcome: DispatchOutcome|
        #[trigger] dispatch_post(
            pre,
            post,
            MessageView { content: payload, timestamp_millis: ts },
            outcome,
        ) && resp == response_text_view(outcome)
}

/// Law: a finished request answers with one of exactly three fixed phrases;
/// failure is distinguishable by the text alone.
pub proof fn lemma_request_response_vocabulary<O: Observer>(payload: Seq<char>, resp: Seq<char>)
    requires
        request_post::<O>(payload, resp),
    ensures
        resp == lock_error_text_view() || resp == response_text_view(DispatchOutcome::Delivered)
            || resp == response_text_view(DispatchOutcome::ChannelClosed),
{
    if resp != lock_error_text_view() {
        let (pre, post, ts, outcome) = choose|
            pre: MessageServer<O>,
            post: MessageServer<O>,
            ts: int,
            outcome: DispatchOutcome,
        |
            #[trigger] dispatch_post(
                pre,
                post,
                MessageView { content: payload, timestamp_millis: ts },
                outcome,
            ) && resp == response_text_view(outcome);
        assert(outcome == DispatchOutcome::Delivered || outcome == DispatchOutcome::ChannelClosed);
    }
}

/// One request, end to end: stamps `payload` into a message, takes exclusive
/// access to the server, dispatches the message, and phrases the result.
/// "Server Error" is answered exactly when exclusive access could not be had;
/// any other response reports a dispatch of a message whose content is exactly
/// `payload`.
///
/// The dispatch blocks while the delivery channel is full, and the channel
/// send panics on an asynchronous runtime's worker thread: an async front end
/// must cross over with a blocking task. Observers registered on the server
/// must not use this `ServerState` themselves — they run while its lock is
/// held, and taking it again on the same thread panics or deadlocks.
pub fn handle_message<O: Observer>(state: &ServerState<O>, payload: String) -> (resp:
    &'static str)
    ensures
        request_post::<O>(payload@, resp@),
{
    let msg = ServerMessage::new(payload);
    let ghost mv = msg@;
    let run = |server: MessageServer<O>| -> (out: (MessageServer<O>, &'static str))
        ensures
            handled_post(server, out.0, msg@, out.1@),
        {
            let mut s = server;
            let resp = s.handle_message(msg);
            (s, resp)
        };
    let ghost grun = run;
    match state.with_exclusive_access(run) {
        Ok(resp) => {
            proof {
                let (s0, s1) = choose|s0: MessageServer<O>, s1: MessageServer<O>|
                    call_ensures(grun, (s0,), (s1, resp));
                assert(handled_post(s0, s1, mv, resp@));
                let outcome = choose|outcome: DispatchOutcome|
                    #[trigger] dispatch_post(s0, s1, mv, outcome) && resp@
                        == response_text_view(outcome);
                assert(mv == (MessageView {
                    content: payload@,
                    timestamp_millis: mv.timestamp_millis,
                }));
                assert(dispatch_post(
                    s0,
                    s1,
                    MessageView { content: payload@, timestamp_millis: mv.timestamp_millis },
                    outcome,
                ) && resp@ == response_text_view(outcome));
            }
            resp
        },
        Err(_) => "Server Error",
    }
}

} // verus!
