//! What the receiver does with one datagram from the sender: decode the
//! request in it, perform the request against the target, encode the
//! response, and send it back. The decoding, the request, the encoding and
//! the sending are done by the caller; this module decides, event by event,
//! what comes next.
use vstd::prelude::*;

use crate::exchange::{EncodeError, SendError};
use crate::request::Request;
use crate::response::Response;

verus! {

/// Where a relay stands.
#[derive(Debug, Clone, Copy, PartialEq, Eq, Structural)]
pub enum RelayState {
    /// The datagram is to be decoded.
    Decoding,
    /// The request with this id is to be performed against the target.
    Forwarding(u128),
    /// The response is to be encoded.
    Encoding,
    /// The encoded response is to be sent back.
    Sending,
    /// The relay is over.
    Finished,
}

/// The datagram does not hold a request.
#[derive(Debug, Clone, Copy)]
pub struct DecodeError;

/// Performing the request against the target failed.
#[derive(Debug, Clone, Copy)]
pub struct ForwardError;

/// The stage at which a relay failed.
#[derive(Debug, Clone, Copy, PartialEq, Eq, Structural)]
pub enum RelayError {
    Decode,
    Forward,
    Encode,
    Send,
}

/// What came of the last action.
#[derive(Debug)]
pub enum RelayEvent {
    /// The datagram was decoded into the id and the request, or was not.
    Decoded(Result<(u128, Request), DecodeError>),
    /// The target answered, or the request failed.
    Forwarded(Result<Response, ForwardError>),
    /// The response was encoded together with its id, or could not be.
    Encoded(Result<Vec<u8>, EncodeError>),
    /// The encoded response was sent, or could not be.
    Sent(Result<(), SendError>),
}

/// What the caller is to do next.
#[derive(Debug)]
pub enum RelayAction {
    /// Decode the datagram.
    Decode,
    /// Perform this request against the target.
    Forward(Request),
    /// Encode this response together with this id.
    Encode(u128, Response),
    /// Send these bytes back to the sender.
    Send(Vec<u8>),
    /// The relay is over, with this outcome.
    Finish(Result<(), RelayError>),
    /// Nothing: the event does not belong to where the relay stands.
    Ignore,
}

/// One datagram on its way through the receiver.
#[derive(Debug, Clone, Copy)]
pub struct Relay {
    pub state: RelayState,
}

/// The state and action that follow `event` in a relay that stands at
/// `state`.
pub open spec fn relay_next(state: RelayState, event: RelayEvent) -> (RelayState, RelayAction) {
    match (state, event) {
        (RelayState::Decoding, RelayEvent::Decoded(Ok((id, request)))) => (
            RelayState::Forwarding(id),
            RelayAction::Forward(request),
        ),
        (RelayState::Decoding, RelayEvent::Decoded(Err(_))) => (
            RelayState::Finished,
            RelayAction::Finish(Err(RelayError::Decode)),
        ),
        (RelayState::Forwarding(id), RelayEvent::Forwarded(Ok(response))) => (
            RelayState::Encoding,
            RelayAction::Encode(id, response),
        ),
        (RelayState::Forwarding(_), RelayEvent::Forwarded(Err(_))) => (
            RelayState::Finished,
            RelayAction::Finish(Err(RelayError::Forward)),
        ),
        (RelayState::Encoding, RelayEvent::Encoded(Ok(bytes))) => (
            RelayState::Sending,
            RelayAction::Send(bytes),
        ),
        (RelayState::Encoding, RelayEvent::Encoded(Err(_))) => (
            RelayState::Finished,
            RelayAction::Finish(Err(RelayError::Encode)),
        ),
        (RelayState::Sending, RelayEvent::Sent(Ok(_))) => (
            RelayState::Finished,
            RelayAction::Finish(Ok(())),
        ),
        (RelayState::Sending, RelayEvent::Sent(Err(_))) => (
            RelayState::Finished,
            RelayAction::Finish(Err(RelayError::Send)),
        ),
        _ => (state, RelayAction::Ignore),
    }
}

/// How far a relay has come.
pub open spec fn relay_rank(state: RelayState) -> int {
    match state {
        RelayState::Decoding => 0,
        RelayState::Forwarding(_) => 1,
        RelayState::Encoding => 2,
        RelayState::Sending => 3,
        RelayState::Finished => 4,
    }
}

impl Relay {
    /// A relay for a datagram that just came in, and its first action:
    /// decode it.
    pub fn start() -> (r: (Relay, RelayAction))
        ensures
            r.0.state == RelayState::Decoding,
            r.1 == RelayAction::Decode,
    {
        (Relay { state: RelayState::Decoding }, RelayAction::Decode)
    }

    /// Moves the relay on by what came of the last action, and says what to
    /// do next.
    pub fn step(&mut self, event: RelayEvent) -> (action: RelayAction)
        ensures
            (final(self).state, action) == relay_next(old(self).state, event),
    {
        match (self.state, event) {
            (RelayState::Decoding, RelayEvent::Decoded(Ok((id, request)))) => {
                self.state = RelayState::Forwarding(id);
                RelayAction::Forward(request)
            },
            (RelayState::Decoding, RelayEvent::Decoded(Err(_))) => {
                self.state = RelayState::Finished;
                RelayAction::Finish(Err(RelayError::Decode))
            },
            (RelayState::Forwarding(id), RelayEvent::Forwarded(Ok(response))) => {
                self.state = RelayState::Encoding;
                RelayAction::Encode(id, response)
            },
            (RelayState::Forwarding(_), RelayEvent::Forwarded(Err(_))) => {
                self.state = RelayState::Finished;
                RelayAction::Finish(Err(RelayError::Forward))
            },
            (RelayState::Encoding, RelayEvent::Encoded(Ok(bytes))) => {
                self.state = RelayState::Sending;
                RelayAction::Send(bytes)
            },
            (RelayState::Encoding, RelayEvent::Encoded(Err(_))) => {
                self.state = RelayState::Finished;
                RelayAction::Finish(Err(RelayError::Encode))
            },
            (RelayState::Sending, RelayEvent::Sent(Ok(_))) => {
                self.state = RelayState::Finished;
                RelayAction::Finish(Ok(()))
            },
            (RelayState::Sending, RelayEvent::Sent(Err(_))) => {
                self.state = RelayState::Finished;
                RelayAction::Finish(Err(RelayError::Send))
            },
            _ => RelayAction::Ignore,
        }
    }
}

/// A finished relay stays finished and does nothing more.
pub proof fn law_relay_finished_is_final(event: RelayEvent)
    ensures
        relay_next(RelayState::Finished, event) == (RelayState::Finished, RelayAction::Ignore),
{
}

/// A relay finishes exactly on the step that reports its outcome, and
/// every step that does something moves it forward.
pub proof fn law_relay_moves_to_one_outcome(state: RelayState, event: RelayEvent)
    ensures
        relay_next(state, event).1 is Ignore ==> relay_next(state, event).0 == state,
        !(relay_next(state, event).1 is Ignore) ==> relay_rank(state) < relay_rank(
            relay_next(state, event).0,
        ),
        state != RelayState::Finished ==> ((relay_next(state, event).0 == RelayState::Finished)
            == (relay_next(state, event).1 is Finish)),
{
}

/// A relay succeeds only when the response went out: every failure of a
/// stage ends the relay with that stage as its error.
pub proof fn law_relay_outcome(state: RelayState, event: RelayEvent)
    ensures
        relay_next(state, event).1 == RelayAction::Finish(Ok(())) <==> (state == RelayState::Sending
            && event is Sent && event->Sent_0 is Ok),
        relay_next(state, event).1 == RelayAction::Finish(Err(RelayError::Decode)) <==> (state
            == RelayState::Decoding && event is Decoded && event->Decoded_0 is Err),
        relay_next(state, event).1 == RelayAction::Finish(Err(RelayError::Forward)) <==> (
        state is Forwarding && event is Forwarded && event->Forwarded_0 is Err),
        relay_next(state, event).1 == RelayAction::Finish(Err(RelayError::Encode)) <==> (state
            == RelayState::Encoding && event is Encoded && event->Encoded_0 is Err),
        relay_next(state, event).1 == RelayAction::Finish(Err(RelayError::Send)) <==> (state
            == RelayState::Sending && event is Sent && event->Sent_0 is Err),
{
}

/// The response goes back under the id of the request it answers.
pub proof fn law_relay_keeps_id(id: u128, event: RelayEvent)
    ensures
        relay_next(RelayState::Forwarding(id), event).1 matches RelayAction::Encode(i, _) ==> i
            == id,
{
}

/// The request performed against the target is the decoded request,
/// unchanged (method, path, header fields, query and body), and the relay
/// keeps the id it was decoded with; nothing else is ever forwarded.
pub proof fn law_forwarded_request_is_decoded_request(state: RelayState, event: RelayEvent)
    ensures
        state == RelayState::Decoding ==> (event matches RelayEvent::Decoded(Ok((id, request)))
            ==> relay_next(state, event) == (
            RelayState::Forwarding(id),
            RelayAction::Forward(request),
        )),
        relay_next(state, event).1 matches RelayAction::Forward(r) ==> (state
            == RelayState::Decoding && (event matches RelayEvent::Decoded(Ok((id, q))) && q == r
            && relay_next(state, event).0 == RelayState::Forwarding(id))),
{
}

/// The response encoded for the sender is the target's response, unchanged
/// (status code and header fields), under the id of the request it answers;
/// nothing else is ever encoded.
pub proof fn law_encoded_response_is_target_response(state: RelayState, event: RelayEvent)
    ensures
        state matches RelayState::Forwarding(id) ==> (event matches RelayEvent::Forwarded(Ok(r))
            ==> relay_next(state, event) == (RelayState::Encoding, RelayAction::Encode(id, r))),
        relay_next(state, event).1 matches RelayAction::Encode(i, r) ==> (state
            == RelayState::Forwarding(i) && event == RelayEvent::Forwarded(Ok(r))),
{
}

/// The bytes sent back are exactly the bytes the response was encoded into,
/// and nothing else is ever sent.
pub proof fn law_sent_bytes_are_encoded_response(state: RelayState, event: RelayEvent)
    ensures
        relay_next(state, event).1 matches RelayAction::Send(b) ==> (state == RelayState::Encoding
            && event == RelayEvent::Encoded(Ok(b))),
        state == RelayState::Encoding ==> (event matches RelayEvent::Encoded(Ok(b)) ==> relay_next(
            state,
            event,
        ).1 == RelayAction::Send(b)),
{
}

/// A datagram that goes through without a failure has its decoded request
/// performed unchanged, the target's response encoded unchanged under the
/// decoded id, exactly the encoded bytes sent back, and ends in success.
pub proof fn law_relay_without_failure(id: u128, request: Request, response: Response, bytes: Vec<u8>)
    ensures
        ({
            let s1 = relay_next(RelayState::Decoding, RelayEvent::Decoded(Ok((id, request))));
            let s2 = relay_next(s1.0, RelayEvent::Forwarded(Ok(response)));
            let s3 = relay_next(s2.0, RelayEvent::Encoded(Ok(bytes)));
            let s4 = relay_next(s3.0, RelayEvent::Sent(Ok(())));
            &&& s1.1 == RelayAction::Forward(request)
            &&& s2.1 == RelayAction::Encode(id, response)
            &&& s3.1 == RelayAction::Send(bytes)
            &&& s4 == (RelayState::Finished, RelayAction::Finish(Ok(())))
        }),
{
}

} // verus!
