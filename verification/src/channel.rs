//! The message channels of `crossbeam_channel` through which elements talk
//! to the websocket thread and modal dialogs report the button pressed.
//! A channel is shared with other threads, so nothing is stated of what
//! a send or a receive finds there.
use crossbeam_channel::{Receiver, Sender};
use vstd::prelude::*;

verus! {

#[verifier::external_type_specification]
#[verifier::external_body]
#[verifier::reject_recursive_types(T)]
pub struct ExSender<T>(Sender<T>);

#[verifier::external_type_specification]
#[verifier::external_body]
#[verifier::reject_recursive_types(T)]
pub struct ExReceiver<T>(Receiver<T>);

/// Calls `crossbeam_channel::unbounded`, which makes a channel with no
/// bound on the messages it holds and returns its two ends. Nothing is
/// stated of the ends: their contents are not modelled.
#[verifier::external_body]
pub(crate) fn unbounded_channel<T>() -> (Sender<T>, Receiver<T>) {
    crossbeam_channel::unbounded()
}

/// Calls `Sender::send`, which puts `msg` into the channel unless every
/// receiver is gone. Returns whether it went in, and a ghost copy of the
/// message that was handed to the channel. On an unbounded channel it never
/// blocks. Whether the message goes in depends on other threads, so the
/// flag is left unstated.
#[verifier::external_body]
pub(crate) fn send_message<T>(tx: &Sender<T>, msg: T) -> (r: (bool, Ghost<T>))
    ensures
        r.1@ == msg,
{
    let handed = Ghost(msg);
    (tx.send(msg).is_ok(), handed)
}

/// Calls `Receiver::recv`, which blocks until a message arrives and gives
/// it, or gives an error once every sender is gone (here `None`). What
/// arrives is up to other threads, so the result is left unstated.
#[verifier::external_body]
pub(crate) fn receive_message<T>(rx: &Receiver<T>) -> (r: Option<T>) {
    rx.recv().ok()
}

/// Calls `Sender::clone`: another sending end of the same channel.
/// Channel identity is not modelled, so nothing is stated.
#[verifier::external_body]
pub(crate) fn clone_sender<T>(tx: &Sender<T>) -> (r: Sender<T>) {
    tx.clone()
}

/// Calls `Receiver::clone`: another receiving end of the same channel.
/// Channel identity is not modelled, so nothing is stated.
#[verifier::external_body]
pub(crate) fn clone_receiver<T>(rx: &Receiver<T>) -> (r: Receiver<T>) {
    rx.clone()
}

/// A copy of an optional sending end, present exactly when the given one is.
pub(crate) fn clone_sender_opt<T>(tx: &Option<Sender<T>>) -> (r: Option<Sender<T>>)
    ensures
        r is Some <==> tx is Some,
{
    match tx {
        Some(t) => Some(clone_sender(t)),
        None => None,
    }
}

/// A copy of an optional receiving end, present exactly when the given one is.
pub(crate) fn clone_receiver_opt<T>(rx: &Option<Receiver<T>>) -> (r: Option<Receiver<T>>)
    ensures
        r is Some <==> rx is Some,
{
    match rx {
        Some(t) => Some(clone_receiver(t)),
        None => None,
    }
}

} // verus!
