//! The ingestion endpoint: what a request does to the handoff channel, and
//! with which status it is answered.
use crate::handoff::{push, ChannelClosed};
use crossbeam_channel::Sender;
use sentry_types::protocol::v7::{Envelope, EnvelopeError};
use vstd::prelude::*;

verus! {

/// Why a byte sequence is not an envelope.
#[verifier::external_type_specification]
#[verifier::external_body]
pub struct ExEnvelopeError(EnvelopeError);

/// The status of a request that was served.
pub const STATUS_OK: u16 = 200;

/// The status of a request whose body is not an envelope.
pub const STATUS_BAD_REQUEST: u16 = 400;

/// The status of a request whose envelope nobody is left to take.
pub const STATUS_SERVICE_UNAVAILABLE: u16 = 503;

/// A request, as the transport hands it over.
#[derive(Clone, Copy, Debug)]
pub enum Request<'a> {
    /// The liveness probe.
    Probe,
    /// An envelope posted for a project, as raw bytes.
    Submit(&'a [u8]),
}

/// Why an envelope was not delivered.
#[derive(Debug)]
pub enum IngestError {
    /// The body does not conform to the envelope wire format.
    Decode(EnvelopeError),
    /// No consumer is left to take the envelope, which comes back.
    ChannelClosed(Envelope),
}

/// Whether the decoder takes the bytes for an envelope, as far as the bytes
/// alone decide it: `Some(true)` where it does on every machine,
/// `Some(false)` where it does on none, `None` where machines differ. They
/// differ on a timestamp far in the future: the decoder adds each timestamp
/// to the epoch of the platform's clock type, and how far that type reaches
/// depends on the platform.
pub uninterp spec fn decodes(body: Seq<u8>) -> Option<bool>;

/// `Envelope::from_slice`: the envelope that the bytes encode, or why they
/// encode none. Where the bytes alone decide whether they encode one, the
/// decoder decides so. Where the bytes leave out an identifier or a
/// timestamp, the decoder fills in a fresh one, so nothing is said of what
/// the envelope holds.
#[verifier::external_body]
fn decode(body: &[u8]) -> (decoded: Result<Envelope, EnvelopeError>)
    ensures
        decodes(body@) matches Some(accepted) ==> (decoded is Ok <==> accepted),
{
    Envelope::from_slice(body)
}

/// The status with which a submission is answered.
pub open spec fn status_of(outcome: Result<(), IngestError>) -> u16 {
    match outcome {
        Ok(()) => STATUS_OK,
        Err(IngestError::Decode(_)) => STATUS_BAD_REQUEST,
        Err(IngestError::ChannelClosed(_)) => STATUS_SERVICE_UNAVAILABLE,
    }
}

/// Hands a decoded envelope to the channel. A body that did not decode is
/// refused with the decoder's reason, and nothing is pushed.
pub fn deliver(decoded: Result<Envelope, EnvelopeError>, sender: &Sender<Envelope>) -> (outcome:
    Result<(), IngestError>)
    ensures
        decoded matches Err(reason) ==> outcome == Err::<(), IngestError>(
            IngestError::Decode(reason),
        ),
        decoded matches Ok(envelope) ==> outcome is Ok || outcome == Err::<(), IngestError>(
            IngestError::ChannelClosed(envelope),
        ),
{
    match decoded {
        Ok(envelope) => match push(sender, envelope) {
            Ok(()) => Ok(()),
            Err(ChannelClosed(returned)) => Err(IngestError::ChannelClosed(returned)),
        },
        Err(reason) => Err(IngestError::Decode(reason)),
    }
}

/// Decodes a request body and hands the envelope to the channel. A body
/// that no machine decodes is refused with the decoder's reason; a body that
/// every machine decodes is pushed, and fails only where the channel is
/// closed.
pub fn ingest(body: &[u8], sender: &Sender<Envelope>) -> (outcome: Result<(), IngestError>)
    ensures
        decodes(body@) == Some(false) ==> outcome matches Err(IngestError::Decode(_)),
        decodes(body@) == Some(true) ==> outcome is Ok || outcome matches Err(
            IngestError::ChannelClosed(_),
        ),
{
    deliver(decode(body), sender)
}

/// The status with which a submission is answered: success where the
/// envelope was delivered, a client error where the body was malformed, a
/// server error where the channel was closed.
pub fn status_code(outcome: &Result<(), IngestError>) -> (status: u16)
    ensures
        status == status_of(*outcome),
{
    match outcome {
        Ok(()) => STATUS_OK,
        Err(IngestError::Decode(_)) => STATUS_BAD_REQUEST,
        Err(IngestError::ChannelClosed(_)) => STATUS_SERVICE_UNAVAILABLE,
    }
}

/// Serves a request and gives the status of the answer. The probe is always
/// answered with success, whatever the state of the channel. A submission
/// that no machine decodes is answered with a client error; one that every
/// machine decodes is answered with success, or with a server error where the
/// channel is closed.
pub fn respond(request: Request<'_>, sender: &Sender<Envelope>) -> (status: u16)
    ensures
        request is Probe ==> status == STATUS_OK,
        request matches Request::Submit(body) ==> (decodes(body@) == Some(false) ==> status
            == STATUS_BAD_REQUEST),
        request matches Request::Submit(body) ==> (decodes(body@) == Some(true) ==> status
            == STATUS_OK || status == STATUS_SERVICE_UNAVAILABLE),
        status == STATUS_OK || status == STATUS_BAD_REQUEST || status
            == STATUS_SERVICE_UNAVAILABLE,
{
    match request {
        Request::Probe => STATUS_OK,
        Request::Submit(body) => {
            let outcome = ingest(body, sender);
            status_code(&outcome)
        },
    }
}

} // verus!
