//! The handoff channel: a conduit with a single slot that carries decoded
//! envelopes from the endpoint to the one consumer.
use crossbeam_channel::{Receiver, RecvError, Sender};
use sentry_types::protocol::v7::Envelope;
use vstd::prelude::*;

verus! {

/// The sending end of a channel.
#[verifier::external_type_specification]
#[verifier::external_body]
#[verifier::reject_recursive_types(T)]
pub struct ExSender<T>(Sender<T>);

/// The receiving end of a channel.
#[verifier::external_type_specification]
#[verifier::external_body]
#[verifier::reject_recursive_types(T)]
pub struct ExReceiver<T>(Receiver<T>);

/// What a receiver gets from a channel that is empty and closed.
#[verifier::external_type_specification]
#[verifier::external_body]
pub struct ExRecvError(RecvError);

/// How many envelopes may wait in the handoff channel at a time.
pub const SLOTS: usize = 1;

/// The channel is closed: no consumer is left to take an envelope, or no
/// producer is left and nothing waits in the channel. A push that fails hands
/// its envelope back in the error.
#[derive(Debug)]
pub struct ChannelClosed<T>(pub T);

/// The number of messages that the channel behind a sending end was made to
/// hold, where it was made with a bound.
pub uninterp spec fn sender_capacity(sender: Sender<Envelope>) -> Option<nat>;

/// The number of messages that the channel behind a receiving end was made to
/// hold, where it was made with a bound.
pub uninterp spec fn receiver_capacity(receiver: Receiver<Envelope>) -> Option<nat>;

/// `crossbeam_channel::bounded`: the two ends of a new channel that holds at
/// most `capacity` messages. The bound keeps the channel's index arithmetic
/// and the allocation of its slots within what the function can do.
#[verifier::external_body]
fn bounded(capacity: usize) -> (ends: (Sender<Envelope>, Receiver<Envelope>))
    requires
        capacity <= u16::MAX,
    ensures
        sender_capacity(ends.0) == Some(capacity as nat),
        receiver_capacity(ends.1) == Some(capacity as nat),
{
    crossbeam_channel::bounded(capacity)
}

/// `Sender::send`: waits until the message is in the channel, or until the
/// channel is closed; then the message comes back.
#[verifier::external_body]
fn send(sender: &Sender<Envelope>, envelope: Envelope) -> (outcome: Result<(), Envelope>)
    ensures
        outcome matches Err(returned) ==> returned == envelope,
{
    sender.send(envelope).map_err(|refused| refused.into_inner())
}

/// `Receiver::recv`: waits until a message is there, or until the channel is
/// empty and closed.
#[verifier::external_body]
fn recv(receiver: &Receiver<Envelope>) -> (outcome: Result<Envelope, RecvError>) {
    receiver.recv()
}

/// Makes the handoff channel: a channel with a single slot.
pub fn handoff() -> (ends: (Sender<Envelope>, Receiver<Envelope>))
    ensures
        sender_capacity(ends.0) == Some(SLOTS as nat),
        receiver_capacity(ends.1) == Some(SLOTS as nat),
{
    bounded(SLOTS)
}

/// Puts an envelope into the channel. Waits while the slot is taken. Fails
/// once the channel is closed, and then hands the envelope back.
pub fn push(sender: &Sender<Envelope>, envelope: Envelope) -> (outcome: Result<
    (),
    ChannelClosed<Envelope>,
>)
    ensures
        outcome matches Err(closed) ==> closed.0 == envelope,
{
    let sent = send(sender, envelope);
    pushed(sent)
}

/// Takes the next envelope out of the channel, in the order in which they
/// were put in. Waits while the channel is empty. Fails once the channel is
/// empty and closed. Whether an envelope is there, and which, lies with the
/// producers at the other end: what is said of the outcome is said by
/// `pulled`, for each thing that the channel may give.
pub fn pull(receiver: &Receiver<Envelope>) -> (outcome: Result<Envelope, ChannelClosed<()>>) {
    let received = recv(receiver);
    pulled(received)
}

/// What a push gives for what the channel said of the send: success where
/// the message is in the channel; where the channel is closed, the error that
/// holds the message that came back.
pub open spec fn push_outcome(sent: Result<(), Envelope>) -> Result<(), ChannelClosed<Envelope>> {
    match sent {
        Ok(()) => Ok(()),
        Err(returned) => Err(ChannelClosed(returned)),
    }
}

/// What a pull gives for what the channel said of the receive: the envelope
/// that it gave; where the channel is empty and closed, the error.
pub open spec fn pull_outcome(received: Result<Envelope, RecvError>) -> Result<
    Envelope,
    ChannelClosed<()>,
> {
    match received {
        Ok(envelope) => Ok(envelope),
        Err(_) => Err(ChannelClosed(())),
    }
}

/// Turns what the channel said of a send into the outcome of the push.
pub fn pushed(sent: Result<(), Envelope>) -> (outcome: Result<(), ChannelClosed<Envelope>>)
    ensures
        outcome == push_outcome(sent),
{
    match sent {
        Ok(()) => Ok(()),
        Err(returned) => Err(ChannelClosed(returned)),
    }
}

/// Turns what the channel said of a receive into the outcome of the pull.
pub fn pulled(received: Result<Envelope, RecvError>) -> (outcome: Result<
    Envelope,
    ChannelClosed<()>,
>)
    ensures
        outcome == pull_outcome(received),
{
    match received {
        Ok(envelope) => Ok(envelope),
        Err(_) => Err(ChannelClosed(())),
    }
}

} // verus!
