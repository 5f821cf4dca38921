use vstd::prelude::*;
use std::sync::mpsc::{Receiver, Sender};
use crate::lift::Lift;

verus! {

#[verifier::external_type_specification]
#[verifier::external_body]
#[verifier::reject_recursive_types(T)]
pub struct ExSender<T>(Sender<T>);

#[verifier::external_type_specification]
#[verifier::external_body]
#[verifier::reject_recursive_types(T)]
pub struct ExReceiver<T>(Receiver<T>);

/// Relies on std::sync::mpsc::channel: a new unbounded queue, returned as
/// its sending and receiving halves.
#[verifier::external_body]
pub(crate) fn open_channel() -> (r: (Sender<Vec<Lift>>, Receiver<Vec<Lift>>)) {
    std::sync::mpsc::channel()
}

/// Relies on std::sync::mpsc::Receiver::try_iter: takes every result queued
/// at the time of the call, in the order they were sent, without waiting for
/// more. What it returns depends on the senders, so nothing is stated of it.
#[verifier::external_body]
pub(crate) fn drain(rx: &Receiver<Vec<Lift>>) -> (r: Vec<Vec<Lift>>) {
    rx.try_iter().collect()
}

/// Relies on std::sync::mpsc::Sender::send: queues a result without
/// blocking. A send after the receiving half is gone fails, and is dropped.
#[verifier::external_body]
pub(crate) fn send(tx: &Sender<Vec<Lift>>, delivery: Vec<Lift>) {
    let _ = tx.send(delivery);
}

/// Relies on Sender::clone: another sending half of the same queue.
#[verifier::external_body]
pub(crate) fn clone_sender(tx: &Sender<Vec<Lift>>) -> (r: Sender<Vec<Lift>>) {
    tx.clone()
}

/// A sending half handed to a background operation, with a ghost record of
/// every result sent through it, in the order sent.
pub struct DeliverySender {
    tx: Sender<Vec<Lift>>,
    sent: Ghost<Seq<Vec<Lift>>>,
}

impl DeliverySender {
    /// The results sent through this half so far, oldest first.
    pub closed spec fn sent(&self) -> Seq<Vec<Lift>> {
        self.sent@
    }

    /// Queues `delivery` for the UI thread without blocking. Once the
    /// receiving half is gone (only at shutdown) the result is dropped.
    pub fn deliver(&mut self, delivery: Vec<Lift>)
        ensures
            final(self).sent() == old(self).sent().push(delivery),
    {
        let ghost d = delivery;
        send(&self.tx, delivery);
        self.sent = Ghost(self.sent@.push(d));
    }
}

/// The handoff from background fetches to the UI thread: any number of
/// senders, one receiver, unbounded, never blocking either side.
pub struct ResultChannel {
    tx: Sender<Vec<Lift>>,
    rx: Receiver<Vec<Lift>>,
}

impl ResultChannel {
    /// A new channel with nothing queued.
    pub fn new() -> ResultChannel {
        let (tx, rx) = open_channel();
        ResultChannel { tx, rx }
    }

    /// A sending half for a background fetch to deliver its result through;
    /// nothing has been sent through it yet.
    pub fn sender(&self) -> (r: DeliverySender)
        ensures
            r.sent() == Seq::<Vec<Lift>>::empty(),
    {
        DeliverySender { tx: clone_sender(&self.tx), sent: Ghost(Seq::empty()) }
    }

    /// Every result queued so far, in the order sent; returns at once, with
    /// an empty vector when nothing is queued.
    pub fn try_receive_all(&self) -> Vec<Vec<Lift>> {
        drain(&self.rx)
    }
}

} // verus!
