//! The acknowledgment bridge: turns the buffer's one-shot "append complete"
//! signal into something that can be awaited.
//!
//! Arming yields two halves. The bridge goes to the handlers that the buffer
//! calls; the receiver is what the streaming task awaits. The handler of the
//! buffer's signal fires the bridge, which resolves the receiver at most once.
//! A bridge that is abandoned or dropped unfired cancels the receiver, which
//! the task reads as a closed surface.

use vstd::prelude::*;
use crate::stream::{StreamError, StreamEvent};

verus! {

/// `futures::channel::oneshot::Sender`, the sending half of a one-shot
/// channel, carried as an opaque value.
#[verifier::external_type_specification]
#[verifier::external_body]
#[verifier::reject_recursive_types(T)]
pub struct ExSender<T>(futures::channel::oneshot::Sender<T>);

/// `futures::channel::oneshot::Receiver`, the awaitable half of a one-shot
/// channel, carried as an opaque value.
#[verifier::external_type_specification]
#[verifier::external_body]
#[verifier::reject_recursive_types(T)]
pub struct ExReceiver<T>(futures::channel::oneshot::Receiver<T>);

/// `futures::channel::oneshot::Canceled`, the error that a receiver gives
/// when its sender was dropped unsent.
#[verifier::external_type_specification]
#[verifier::external_body]
pub struct ExCanceled(futures::channel::oneshot::Canceled);

/// `futures::channel::oneshot::channel` creates the two connected halves of a
/// new one-shot channel. Nothing is claimed of them.
pub assume_specification<T>[ futures::channel::oneshot::channel::<T> ]() -> (halves: (
    futures::channel::oneshot::Sender<T>,
    futures::channel::oneshot::Receiver<T>,
));

/// `futures::channel::oneshot::Sender::send` consumes the sender and offers
/// the value to the receiver. Whether it is taken depends on whether the
/// receiver still exists, so only this is claimed: a value that comes back is
/// the value that was sent.
pub assume_specification<T>[ futures::channel::oneshot::Sender::<T>::send ](
    sender: futures::channel::oneshot::Sender<T>,
    t: T,
) -> (outcome: Result<(), T>)
    ensures
        outcome matches Err(back) ==> back == t,
;

/// The handler's half of an armed acknowledgment.
pub struct AckBridge {
    sender: Option<futures::channel::oneshot::Sender<()>>,
}

impl AckBridge {
    /// Whether the bridge can still resolve its receiver.
    pub closed spec fn armed(&self) -> bool {
        self.sender is Some
    }

    /// Arms a new acknowledgment: an armed bridge and the receiver that it
    /// resolves.
    pub fn arm() -> (halves: (AckBridge, futures::channel::oneshot::Receiver<()>))
        ensures
            halves.0.armed(),
    {
        let (sender, receiver) = futures::channel::oneshot::channel::<()>();
        (AckBridge { sender: Some(sender) }, receiver)
    }

    /// Whether the bridge can still resolve its receiver.
    pub fn is_armed(&self) -> (b: bool)
        ensures
            b == self.armed(),
    {
        self.sender.is_some()
    }

    /// Takes the buffer's signal. The first call on an armed bridge resolves
    /// the receiver and returns `true`; the handler is then to be
    /// deregistered. Every later call does nothing and returns `false`.
    pub fn fire(&mut self) -> (resolved: bool)
        ensures
            resolved == old(self).armed(),
            !final(self).armed(),
    {
        match self.sender.take() {
            Some(sender) => {
                let _outcome = sender.send(());
                true
            },
            None => false,
        }
    }

    /// Takes the news that the buffer was torn down. The first call on an
    /// armed bridge gives its sender up unsent, which cancels the receiver,
    /// and returns `true`. On a bridge that has fired or was abandoned before
    /// it does nothing and returns `false`.
    pub fn abandon(&mut self) -> (cancelled: bool)
        ensures
            cancelled == old(self).armed(),
            !final(self).armed(),
    {
        match self.sender.take() {
            Some(_sender) => true,
            None => false,
        }
    }
}

/// Reads what awaiting the receiver gave: the acknowledgment, or the loss of
/// the bridge, which means that the buffer was torn down.
pub fn ack_event(outcome: Result<(), futures::channel::oneshot::Canceled>) -> (event: StreamEvent)
    ensures
        event == (if outcome is Ok {
            StreamEvent::Acknowledged
        } else {
            StreamEvent::Failed(StreamError::SurfaceClosed)
        }),
{
    match outcome {
        Ok(_) => StreamEvent::Acknowledged,
        Err(_) => StreamEvent::Failed(StreamError::SurfaceClosed),
    }
}

} // verus!
