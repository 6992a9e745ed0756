//! The two capabilities of a transport: one forwards a buffer, the other waits
//! for one. An in-process queue provides both.

use vstd::prelude::*;
use crate::error::TransportError;

verus! {

/// The capability to hand a message to the transport.
pub trait SendEndpoint<M>: std::marker::Send {
    /// Forwards one message. Nothing is known of the outcome in advance.
    fn send(&self, message: M) -> (r: Result<(), TransportError>);
}

/// The capability to wait for a message from the transport.
pub trait RecvEndpoint<M>: std::marker::Send {
    /// Blocks until one message is there.
    fn recv(&self) -> (r: Result<M, TransportError>);
}

/// `crossbeam_channel::Sender`, the sending side of an in-process queue. Nothing
/// is seen of what is inside.
#[verifier::external_type_specification]
#[verifier::external_body]
#[verifier::reject_recursive_types(T)]
pub struct ExSender<T>(crossbeam_channel::Sender<T>);

/// `crossbeam_channel::Receiver`, the receiving side of an in-process queue.
/// Nothing is seen of what is inside.
#[verifier::external_type_specification]
#[verifier::external_body]
#[verifier::reject_recursive_types(T)]
pub struct ExReceiver<T>(crossbeam_channel::Receiver<T>);

/// `crossbeam_channel::Sender::send`: blocks until the message is in the queue,
/// or fails once every receiver is gone. Which of the two happens depends on the
/// other side, so nothing is claimed of the result.
#[verifier::external_body]
pub(crate) fn queue_send<M>(sender: &crossbeam_channel::Sender<M>, message: M) -> (r: Result<
    (),
    TransportError,
>) {
    match sender.send(message) {
        Ok(()) => Ok(()),
        Err(_) => Err(TransportError::Disconnected),
    }
}

/// `crossbeam_channel::Receiver::recv`: blocks until a message is there, or fails
/// once the queue is empty and every sender is gone. What arrives depends on the
/// other side, so nothing is claimed of the result.
#[verifier::external_body]
pub(crate) fn queue_recv<M>(receiver: &crossbeam_channel::Receiver<M>) -> (r: Result<
    M,
    TransportError,
>) {
    match receiver.recv() {
        Ok(message) => Ok(message),
        Err(_) => Err(TransportError::Disconnected),
    }
}

impl<M: std::marker::Send> SendEndpoint<M> for crossbeam_channel::Sender<M> {
    fn send(&self, message: M) -> (r: Result<(), TransportError>) {
        queue_send(self, message)
    }
}

impl<M: std::marker::Send> RecvEndpoint<M> for crossbeam_channel::Receiver<M> {
    fn recv(&self) -> (r: Result<M, TransportError>) {
        queue_recv(self)
    }
}

} // verus!
