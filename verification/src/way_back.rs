//! The way back of leases that are dropped: each is sent to the table that it
//! came from, which takes in what was sent when it is asked to.

use std::sync::mpsc;

use vstd::prelude::*;

verus! {

/// The sending end of a channel.
#[verifier::external_type_specification]
#[verifier::external_body]
#[verifier::reject_recursive_types(T)]
pub struct ExSender<T>(mpsc::Sender<T>);

/// The receiving end of a channel.
#[verifier::external_type_specification]
#[verifier::external_body]
#[verifier::reject_recursive_types(T)]
pub struct ExReceiver<T>(mpsc::Receiver<T>);

/// The channel that a sender sends on.
pub uninterp spec fn sends_on(sender: mpsc::Sender<(u64, u64)>) -> int;

/// The channel that a receiver receives from.
pub uninterp spec fn receives_from(receiver: mpsc::Receiver<(u64, u64)>) -> int;

/// Calls `std::sync::mpsc::channel`: the receiver gets what the sender sends.
#[verifier::external_body]
pub(crate) fn lease_channel() -> (ends: (mpsc::Sender<(u64, u64)>, mpsc::Receiver<(u64, u64)>))
    ensures
        sends_on(ends.0) == receives_from(ends.1),
{
    mpsc::channel()
}

/// Calls `Sender::clone`: the new sender sends on the same channel.
#[verifier::external_body]
pub(crate) fn another_sender(sender: &mpsc::Sender<(u64, u64)>) -> (r: mpsc::Sender<(u64, u64)>)
    ensures
        sends_on(r) == sends_on(*sender),
{
    sender.clone()
}

/// Calls `Sender::send`, which neither blocks nor panics: the number and the
/// generation are kept for the receiver, or, if that is gone, dropped.
#[verifier::external_body]
pub(crate) fn send_back(sender: &mpsc::Sender<(u64, u64)>, ino: u64, generation: u64)
    opens_invariants none
    no_unwind
{
    let _ = sender.send((ino, generation));
}

/// Calls `Receiver::try_recv`: the next pair that was sent, if there is one. What
/// was sent, and whether anything was, is not known here.
#[verifier::external_body]
pub(crate) fn next_sent_back(receiver: &mpsc::Receiver<(u64, u64)>) -> (r: Option<(u64, u64)>) {
    receiver.try_recv().ok()
}

} // verus!
