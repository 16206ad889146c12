use vstd::prelude::*;

use crate::errors::BusError;
use crate::messages::ResponseMessage;
use crossbeam::channel::{Receiver, Sender};

verus! {

#[verifier::external_type_specification]
#[verifier::external_body]
#[verifier::reject_recursive_types(T)]
pub struct ExSender<T>(Sender<T>);

#[verifier::external_type_specification]
#[verifier::external_body]
#[verifier::reject_recursive_types(T)]
pub struct ExReceiver<T>(Receiver<T>);

/// What one receive attempt with a deadline came back with.
pub enum RecvOutcome<T> {
    /// The next message of the channel, in send order.
    Message(T),
    /// Nothing arrived before the deadline.
    TimedOut,
    /// Every sender is gone and the channel is drained.
    Disconnected,
}

/// Relies on crossbeam's `unbounded`: a connected channel pair whose sends
/// never block.
#[verifier::external_body]
pub(crate) fn channel_pair<T>() -> (Sender<T>, Receiver<T>) {
    crossbeam::channel::unbounded()
}

/// Relies on crossbeam's `Sender::send`: on an unbounded channel it
/// enqueues without blocking, and on a disconnected channel it hands the
/// message back in the error.
#[verifier::external_body]
pub(crate) fn sender_send<T>(s: &Sender<T>, msg: T) -> (r: Result<(), T>)
    ensures
        r matches Err(m) ==> m == msg,
{
    match s.send(msg) {
        Ok(()) => Ok(()),
        Err(crossbeam::channel::SendError(m)) => Err(m),
    }
}

/// Relies on crossbeam's `Receiver::recv_timeout`: the next message in send
/// order, or the reason there is none.
#[verifier::external_body]
pub(crate) fn receiver_recv_timeout<T>(r: &Receiver<T>, secs: u64) -> (out: RecvOutcome<T>) {
    match r.recv_timeout(core::time::Duration::from_secs(secs)) {
        Ok(m) => RecvOutcome::Message(m),
        Err(crossbeam::channel::RecvTimeoutError::Timeout) => RecvOutcome::TimedOut,
        Err(crossbeam::channel::RecvTimeoutError::Disconnected) => RecvOutcome::Disconnected,
    }
}

/// The consumer-side handle of one correlation id: the receiving end of its
/// sink, and a side channel for termination signals.
pub struct ResponsePacketPromise {
    messages: Receiver<ResponseMessage>,
    signals: Sender<i32>,
}

impl ResponsePacketPromise {
    /// Wrap the two channel ends into a consumer handle.
    pub fn new(messages: Receiver<ResponseMessage>, signals: Sender<i32>) -> ResponsePacketPromise {
        ResponsePacketPromise { messages, signals }
    }

    /// Wait up to twenty seconds for the next payload of this stream.
    pub fn message(&self) -> Result<ResponseMessage, BusError> {
        match receiver_recv_timeout(&self.messages, 20) {
            RecvOutcome::Message(m) => Ok(m),
            RecvOutcome::TimedOut => Err(BusError::Timeout),
            RecvOutcome::Disconnected => Err(BusError::TransportClosed),
        }
    }

    /// Wait up to `secs` seconds for the next payload of this stream.
    pub fn message_within(&self, secs: u64) -> Result<ResponseMessage, BusError> {
        match receiver_recv_timeout(&self.messages, secs) {
            RecvOutcome::Message(m) => Ok(m),
            RecvOutcome::TimedOut => Err(BusError::Timeout),
            RecvOutcome::Disconnected => Err(BusError::TransportClosed),
        }
    }

    /// Send a termination signal back to the bus; best effort.
    pub fn signal(&self, id: i32) {
        let _ = sender_send(&self.signals, id);
    }

    /// The iterator step: the next payload within ten seconds, or the end
    /// of the stream.
    pub fn next(&mut self) -> Option<ResponseMessage> {
        match receiver_recv_timeout(&self.messages, 10) {
            RecvOutcome::Message(m) => Some(m),
            RecvOutcome::TimedOut => None,
            RecvOutcome::Disconnected => None,
        }
    }
}

} // verus!
