//! The one-shot cancellation channel between the manager and the listener task.

use tokio::sync::oneshot::error::TryRecvError;
use tokio::sync::oneshot::{Receiver, Sender};
use vstd::prelude::*;

verus! {

#[verifier::external_type_specification]
#[verifier::external_body]
#[verifier::reject_recursive_types(T)]
pub struct ExSender<T>(tokio::sync::oneshot::Sender<T>);

#[verifier::external_type_specification]
#[verifier::external_body]
#[verifier::reject_recursive_types(T)]
pub struct ExReceiver<T>(tokio::sync::oneshot::Receiver<T>);

#[verifier::external_type_specification]
#[verifier::external_body]
pub struct ExRecvError(tokio::sync::oneshot::error::RecvError);

/// What one non-blocking look at the cancellation channel found.
#[derive(Clone, Copy, Debug, PartialEq, Eq, Structural)]
pub enum CancelPoll {
    /// The stop signal was sent and has now been taken.
    Signalled,
    /// Nothing was sent yet and the sending half is still alive.
    Empty,
    /// The sending half is gone, or the signal was already taken.
    Closed,
}

/// `tokio::sync::oneshot::channel::<()>()`: a fresh pair of handles.
/// Nothing is claimed of the pair.
#[verifier::external_body]
pub(crate) fn open_channel() -> (pair: (Sender<()>, Receiver<()>)) {
    tokio::sync::oneshot::channel::<()>()
}

/// `Sender::send(())`: `Ok` when the receiving half had not hung up, `Err`
/// when it had. Which one comes back depends on the other half, so nothing
/// is claimed of it.
#[verifier::external_body]
pub(crate) fn send_signal(sender: Sender<()>) -> (sent: Result<(), ()>) {
    sender.send(())
}

/// `Receiver::try_recv()`, with its three outcomes carried over one for one.
/// Which one comes back depends on the other half, so nothing is claimed of it.
#[verifier::external_body]
pub(crate) fn poll_signal(receiver: &mut Receiver<()>) -> (poll: CancelPoll) {
    match receiver.try_recv() {
        Ok(()) => CancelPoll::Signalled,
        Err(TryRecvError::Empty) => CancelPoll::Empty,
        Err(TryRecvError::Closed) => CancelPoll::Closed,
    }
}

} // verus!
