//! The producer's side of the pipeline: it sends events to the writer and,
//! on disconnect, waits for the writer's acknowledgement.
use vstd::prelude::*;
use std::sync::mpsc::{Receiver, RecvError, SendError, Sender};
use crate::message::{Disconnect, Message};

verus! {

#[verifier::external_type_specification]
#[verifier::external_body]
#[verifier::reject_recursive_types(T)]
pub struct ExSender<T>(Sender<T>);

#[verifier::external_type_specification]
#[verifier::external_body]
#[verifier::reject_recursive_types(T)]
pub struct ExReceiver<T>(Receiver<T>);

#[verifier::external_type_specification]
#[verifier::external_body]
#[verifier::reject_recursive_types(T)]
pub struct ExSendError<T>(SendError<T>);

#[verifier::external_type_specification]
#[verifier::external_body]
pub struct ExRecvError(RecvError);

/// Relies on `Sender::send`: it queues the value without blocking, or fails
/// when the receiving half is gone. Which of the two happens depends on the
/// other thread, so nothing is promised of the outcome.
pub assume_specification<T>[ Sender::<T>::send ](sender: &Sender<T>, t: T) -> Result<
    (),
    SendError<T>,
>;

/// Relies on `Receiver::recv`: it blocks until a value arrives, or fails once
/// every sending half is gone and nothing is left. The outcome depends on the
/// other thread, so nothing is promised of it.
pub assume_specification<T>[ Receiver::<T>::recv ](receiver: &Receiver<T>) -> Result<
    T,
    RecvError,
>;

/// Why a report or a disconnect did not go through.
#[derive(Clone, Copy, Debug, PartialEq, Eq, Structural)]
pub enum ReportError {
    /// The writer has shut down; the event was not delivered.
    Disconnected,
    /// The writer went away without acknowledging the shutdown.
    AcknowledgementLost,
}

/// What a report returns for the outcome of the send: `Ok` exactly when the
/// event was queued, else `Disconnected`.
pub fn report_outcome(sent: Result<(), SendError<Message>>) -> (r: Result<(), ReportError>)
    ensures
        r is Ok <==> sent is Ok,
        r is Err ==> r == Err::<(), ReportError>(ReportError::Disconnected),
{
    match sent {
        Ok(()) => Ok(()),
        Err(_) => Err(ReportError::Disconnected),
    }
}

/// What a disconnect returns for the outcome of waiting on the
/// acknowledgement channel: the token when it arrived, else
/// `AcknowledgementLost`.
pub fn disconnect_outcome(received: Result<Disconnect, RecvError>) -> (r: Result<
    Disconnect,
    ReportError,
>)
    ensures
        r is Ok <==> received is Ok,
        r is Err ==> r == Err::<Disconnect, ReportError>(ReportError::AcknowledgementLost),
{
    match received {
        Ok(token) => Ok(token),
        Err(_) => Err(ReportError::AcknowledgementLost),
    }
}

/// The producer-facing handle: the sending half of the event channel and the
/// receiving half of the acknowledgement channel.
pub struct Reporter {
    sender: Sender<Message>,
    disconnect_receiver: Receiver<Disconnect>,
}

impl Reporter {
    /// The sending half of the event channel.
    pub closed spec fn sender(&self) -> Sender<Message> {
        self.sender
    }

    /// The receiving half of the acknowledgement channel.
    pub closed spec fn disconnect_receiver(&self) -> Receiver<Disconnect> {
        self.disconnect_receiver
    }

    /// A reporter that sends on `sender` and waits on `disconnect_receiver`.
    pub fn setup(sender: Sender<Message>, disconnect_receiver: Receiver<Disconnect>) -> (r:
        Reporter)
        ensures
            r.sender() == sender,
            r.disconnect_receiver() == disconnect_receiver,
    {
        Reporter { sender, disconnect_receiver }
    }

    /// Queues `event` for the writer. Fails with `Disconnected`, and has no
    /// other effect, when the writer has shut down.
    pub fn report_event(&mut self, event: Message) -> (r: Result<(), ReportError>)
        ensures
            r is Err ==> r == Err::<(), ReportError>(ReportError::Disconnected),
    {
        report_outcome(self.sender.send(event))
    }

    /// Closes the event channel, then blocks until the writer acknowledges
    /// that every event was handled and every handler finished. Consumes the
    /// reporter, so no report can follow on this handle.
    pub fn disconnect(self) -> (r: Result<Disconnect, ReportError>)
        ensures
            r is Err ==> r == Err::<Disconnect, ReportError>(ReportError::AcknowledgementLost),
    {
        let Reporter { sender, disconnect_receiver } = self;
        {
            // the sending half is dropped at the end of this block, which
            // closes the channel
            let _closing = sender;
        }
        disconnect_outcome(disconnect_receiver.recv())
    }
}

} // verus!
