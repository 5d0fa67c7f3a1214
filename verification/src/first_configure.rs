//! The one-shot signal that lets window creation complete.
//!
//! A new surface may not be painted before the compositor has configured it
//! once.  Creation therefore waits on a channel of capacity one, and the
//! first reconciliation pass that has seen a configure notification sends
//! into it.

use vstd::prelude::*;
use crate::event::WindowError;

verus! {

/// The sending half of an `async_channel` channel.  Opaque to the verifier.
#[verifier::external_type_specification]
#[verifier::external_body]
#[verifier::reject_recursive_types(T)]
pub struct ExSender<T>(async_channel::Sender<T>);

/// The receiving half of an `async_channel` channel.  Opaque to the verifier.
#[verifier::external_type_specification]
#[verifier::external_body]
#[verifier::reject_recursive_types(T)]
pub struct ExReceiver<T>(async_channel::Receiver<T>);

/// The error of `async_channel::Receiver::recv`: the channel is closed and
/// empty.  Opaque to the verifier.
#[verifier::external_type_specification]
#[verifier::external_body]
pub struct ExRecvError(async_channel::RecvError);

/// Calls `async_channel::bounded`, which panics on a capacity of zero and
/// otherwise returns the two halves of a new channel.  Nothing is claimed of
/// the halves.
#[verifier::external_body]
fn bounded_channel(capacity: usize) -> (halves: (
    async_channel::Sender<()>,
    async_channel::Receiver<()>,
))
    requires
        capacity > 0,
{
    async_channel::bounded(capacity)
}

/// Calls `async_channel::Sender::try_send`, which never blocks, and tells
/// whether the message was accepted.  Whether it is depends on the state of
/// the channel, so nothing is claimed of the answer.
#[verifier::external_body]
fn try_send_unit(sender: &async_channel::Sender<()>) -> (accepted: bool) {
    sender.try_send(()).is_ok()
}

/// The signalling side of the one-shot signal.  It can fire once.
pub struct FirstConfigureGate {
    sender: Option<async_channel::Sender<()>>,
}

impl FirstConfigureGate {
    /// Whether the signal has not been sent yet.
    pub closed spec fn is_pending(&self) -> bool {
        self.sender is Some
    }

    /// Creates a signal that has not been sent, together with the receiver
    /// that window creation waits on.
    pub fn new() -> (halves: (FirstConfigureGate, async_channel::Receiver<()>))
        ensures
            halves.0.is_pending(),
    {
        let (sender, receiver) = bounded_channel(1);
        (FirstConfigureGate { sender: Some(sender) }, receiver)
    }

    /// Whether the signal has not been sent yet.
    pub fn pending(&self) -> (pending: bool)
        ensures
            pending == self.is_pending(),
    {
        self.sender.is_some()
    }

    /// Sends the signal if it has not been sent yet; otherwise does nothing.
    /// Returns whether this call sent the signal and the channel took it.
    pub fn signal(&mut self) -> (sent: bool)
        ensures
            !final(self).is_pending(),
            sent ==> old(self).is_pending(),
    {
        match self.sender.take() {
            Some(notify) => try_send_unit(&notify),
            None => false,
        }
    }
}

/// What window creation makes of the end of its wait: it succeeds if the
/// signal arrived, and fails with `ConnectionClosed` if the sending side was
/// given up before it sent.
pub fn first_configure_outcome(received: Result<(), async_channel::RecvError>) -> (outcome: Result<
    (),
    WindowError,
>)
    ensures
        received is Ok ==> outcome == Ok::<(), WindowError>(()),
        received is Err ==> outcome == Err::<(), WindowError>(WindowError::ConnectionClosed),
{
    match received {
        Ok(()) => Ok(()),
        Err(_) => Err(WindowError::ConnectionClosed),
    }
}

} // verus!
