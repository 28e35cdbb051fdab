//! The two channels of the `futures` crate that the task is built on, as far
//! as the verifier is told about them. Nothing in this file is proved: but
//! for the plain types `Polled` and `InTask`, each item says what is taken
//! on trust from the crate's source.
//!
//! A channel is shared with other tasks and threads, and what a call finds
//! at its end depends on what they have done at theirs. So hardly any
//! contract here speaks of the result: the callers are proved for every
//! answer that can come back.
//!
//! Every `poll` of that crate must run inside a task: it looks up the
//! current task in order to have it woken, and the crate panics where there
//! is none. So the functions here that poll or notify take an `InTask`,
//! which `current_task` hands out only where a task is current.

use futures::sync::mpsc::{SendError, UnboundedReceiver, UnboundedSender};
use futures::sync::oneshot::{Canceled, Receiver, Sender};
use futures::{Async, Future, Stream};
use vstd::prelude::*;

verus! {

/// `futures::sync::mpsc::UnboundedSender`: a producer's end of the request
/// channel. Opaque.
#[verifier::external_type_specification]
#[verifier::external_body]
#[verifier::reject_recursive_types(T)]
pub struct ExUnboundedSender<T>(UnboundedSender<T>);

/// `futures::sync::mpsc::UnboundedReceiver`: the consumer's end of the request
/// channel. Opaque.
#[verifier::external_type_specification]
#[verifier::external_body]
#[verifier::reject_recursive_types(T)]
pub struct ExUnboundedReceiver<T>(UnboundedReceiver<T>);

/// `futures::sync::mpsc::SendError`: the error of a send whose receiver is
/// gone. Opaque.
#[verifier::external_type_specification]
#[verifier::external_body]
#[verifier::reject_recursive_types(T)]
pub struct ExSendError<T>(SendError<T>);

/// `futures::sync::oneshot::Sender`: the completing end of a single-use
/// channel. Opaque.
#[verifier::external_type_specification]
#[verifier::external_body]
#[verifier::reject_recursive_types(T)]
pub struct ExSender<T>(Sender<T>);

/// `futures::sync::oneshot::Receiver`: the awaiting end of a single-use
/// channel. Opaque.
#[verifier::external_type_specification]
#[verifier::external_body]
#[verifier::reject_recursive_types(T)]
pub struct ExReceiver<T>(Receiver<T>);

/// `futures::sync::oneshot::Canceled`: the error of an awaiting end whose
/// sender was dropped unused. Opaque.
#[verifier::external_type_specification]
#[verifier::external_body]
pub struct ExCanceled(Canceled);

/// `futures::sync::mpsc::unbounded` makes a fresh channel and returns its two
/// ends. Nothing is claimed of them.
pub assume_specification<T>[ futures::sync::mpsc::unbounded::<T> ]() -> (ends: (
    UnboundedSender<T>,
    UnboundedReceiver<T>,
));

/// `futures::sync::oneshot::channel` makes a fresh single-use channel and
/// returns its two ends. Nothing is claimed of them.
pub assume_specification<T>[ futures::sync::oneshot::channel::<T> ]() -> (ends: (
    Sender<T>,
    Receiver<T>,
));

/// `UnboundedSender::unbounded_send` enqueues the message without waiting, or
/// fails when the receiving end has been closed or dropped. Which of the two
/// happens is the channel's affair: nothing is claimed of the result. (The
/// crate panics where a channel would hold more messages than half the
/// address space can count.)
pub assume_specification<T>[ UnboundedSender::<T>::unbounded_send ](
    tx: &UnboundedSender<T>,
    msg: T,
) -> (sent: Result<(), SendError<T>>);

/// `Clone` for `UnboundedSender` gives one more producer on the same channel.
/// Nothing is claimed of it. (The crate panics where a channel would have
/// more producers than a quarter of the address space can count.)
pub assume_specification<T>[ <UnboundedSender<T> as Clone>::clone ](
    tx: &UnboundedSender<T>,
) -> (twin: UnboundedSender<T>);

/// `oneshot::Sender::send` uses the sender up and hands the value to the
/// awaiting end, or fails when that end is gone. The claim: a failure gives
/// back the very value that was to be sent.
pub assume_specification<T>[ Sender::<T>::send ](tx: Sender<T>, value: T) -> (sent: Result<
    (),
    T,
>)
    ensures
        sent matches Err(back) ==> back == value,
;

/// Evidence that a task of the `futures` crate is current on this thread.
///
/// Only `current_task` makes one, and only inside a task. Whoever asks for
/// one uses it before returning and passes it to nothing that keeps it, so
/// that it is never held beyond the poll in which it was made: the task
/// that was current when it was made is current wherever it is used.
pub(crate) struct InTask {
    seen: (),
}

/// `futures::task::is_in_task`: whether a task is current on this thread.
/// The answer depends on who is calling, so nothing is claimed of it; the
/// body turns `true` into the evidence and `false` into `None`.
#[verifier::external_body]
pub(crate) fn current_task() -> (task: Option<InTask>) {
    if futures::task::is_in_task() {
        Some(InTask { seen: () })
    } else {
        None
    }
}

/// What one look at the consumer's end of a request channel found.
pub enum Polled<T> {
    /// The oldest message waiting.
    Item(T),
    /// Nothing waiting, while some producer is still alive.
    Empty,
    /// Nothing waiting, and no producer left to send more.
    Closed,
    /// The channel itself failed.
    Fault,
}

/// `Stream::poll` of `UnboundedReceiver`: takes the oldest waiting message
/// off the channel if there is one, and otherwise tells whether more can
/// come, having arranged for the current task to be woken if so. The body
/// only renames the four answers; nothing is claimed of which one comes
/// back. (In the version at hand the crate never reports a fault.) The
/// crate panics here only where no task is current, which `task` rules out.
#[verifier::external_body]
pub(crate) fn poll_stream<T>(rx: &mut UnboundedReceiver<T>, task: &InTask) -> (polled: Polled<T>) {
    match rx.poll() {
        Ok(Async::Ready(Some(item))) => Polled::Item(item),
        Ok(Async::Ready(None)) => Polled::Closed,
        Ok(Async::NotReady) => Polled::Empty,
        Err(()) => Polled::Fault,
    }
}

/// `Future::poll` of `oneshot::Receiver`: the value if it has arrived, `None`
/// while it may still come, having arranged for the current task to be
/// woken, and the crate's error once the sender is gone without having
/// sent. The body only unpacks the crate's `Async`; nothing is claimed of
/// which answer comes back. The crate panics here only where no task is
/// current, which `task` rules out.
#[verifier::external_body]
pub(crate) fn poll_oneshot<T>(rx: &mut Receiver<T>, task: &InTask) -> (polled: Result<
    Option<T>,
    Canceled,
>) {
    match rx.poll() {
        Ok(Async::Ready(value)) => Ok(Some(value)),
        Ok(Async::NotReady) => Ok(None),
        Err(gone) => Err(gone),
    }
}

/// `futures::task::current().notify()`: asks the executor to poll the
/// current task once more after it has yielded. It returns nothing, so
/// nothing is claimed. The crate panics here only where no task is current,
/// which `task` rules out.
#[verifier::external_body]
pub(crate) fn reschedule(task: &InTask) {
    futures::task::current().notify();
}

} // verus!
