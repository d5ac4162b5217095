//! The trusted boundary: declarations and thin wrappers for the outside calls
//! the relay lives with. Verus believes the contracts stated here; everything
//! else in the crate is proved against them.

use vstd::prelude::*;

use crate::message::ServerMessage;
use crate::shared::ran_on_some_value;

verus! {

#[verifier::external_type_specification]
#[verifier::external_body]
#[verifier::reject_recursive_types(T)]
pub struct ExSender<T>(tokio::sync::mpsc::Sender<T>);

#[verifier::external_type_specification]
#[verifier::external_body]
#[verifier::reject_recursive_types(T)]
pub struct ExMutex<T: ?Sized>(std::sync::Mutex<T>);

/// Relies on chrono::Utc::now and chrono::DateTime::timestamp_millis: the
/// wall-clock time as milliseconds since the Unix epoch. The value depends on
/// the clock, so nothing is assumed of it.
#[verifier::external_body]
pub(crate) fn now_timestamp_millis() -> i64 {
    chrono::Utc::now().timestamp_millis()
}

/// Relies on tokio::sync::mpsc::Sender::blocking_send: waits for capacity when
/// the channel is full; on success the value has been enqueued; when the
/// receiving side is gone it fails and hands the very value back
/// (SendError holds the message). Whether it succeeds depends on the consumer,
/// so only the failure's payload is stated. Must be called from outside an
/// asynchronous runtime (the HTTP front end crosses over with a blocking task).
#[verifier::external_body]
pub(crate) fn channel_send(
    tx: &tokio::sync::mpsc::Sender<ServerMessage>,
    msg: ServerMessage,
) -> (r: Result<(), ServerMessage>)
    ensures
        r matches Err(returned) ==> returned == msg,
{
    tx.blocking_send(msg).map_err(|e| e.0)
}

/// Relies on std::sync::Mutex::new: a fresh lock owning the slot.
#[verifier::external_body]
pub(crate) fn new_lock_slot<T>(value: T) -> std::sync::Mutex<Option<T>> {
    std::sync::Mutex::new(Some(value))
}

/// Relies on std::sync::Mutex::lock: at most one holder at a time, and `Err`
/// only when the lock is poisoned. The closure runs on the stored value while
/// the lock is held, and the slot is filled again before the lock is released;
/// so a `Some` result is one of the closure's own admissible outcomes on some
/// stored value.
#[verifier::external_body]
pub(crate) fn lock_and_run<T, R, F: FnOnce(T) -> (T, R)>(
    lock: &std::sync::Mutex<Option<T>>,
    f: F,
) -> (r: Option<R>)
    requires
        forall|t: T| call_requires(f, (t,)),
    ensures
        r matches Some(y) ==> ran_on_some_value(f, y),
{
    match lock.lock() {
        Ok(mut guard) => match guard.take() {
            Some(t) => {
                let (t2, y) = f(t);
                *guard = Some(t2);
                Some(y)
            }
            None => None,
        },
        Err(_) => None,
    }
}

} // verus!
