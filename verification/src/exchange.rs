//! What the sender does with one accepted request: register a waiter for
//! its response, encode it, send it to the receiver, wait for the response,
//! and answer. The waiting, encoding and sending are done by the caller;
//! this module decides, event by event, what comes next.
use vstd::prelude::*;

use crate::response::Response;
use crate::status::{BAD_GATEWAY, BAD_REQUEST, GATEWAY_TIMEOUT};

verus! {

/// Where an exchange stands.
#[derive(Debug, Clone, Copy, PartialEq, Eq, Structural)]
pub enum ExchangeState {
    /// The waiter for the response is to be registered.
    Registering,
    /// The request is to be encoded for the receiver.
    Encoding,
    /// The encoded request is to be sent.
    Sending,
    /// The response is awaited.
    Waiting,
    /// The request has been answered.
    Finished,
}

/// Encoding the request failed.
#[derive(Debug, Clone, Copy)]
pub struct EncodeError;

/// Sending the encoded request failed.
#[derive(Debug, Clone, Copy)]
pub struct SendError;

/// What came of the last action.
#[derive(Debug)]
pub enum ExchangeEvent {
    /// The waiter is registered.
    Registered,
    /// The request was encoded, or could not be.
    Encoded(Result<Vec<u8>, EncodeError>),
    /// The encoded request was sent, or could not be.
    Sent(Result<(), SendError>),
    /// The response arrived in time, or none did (the time ran out or the
    /// waiter was dropped).
    Waited(Option<Response>),
}

/// What the caller is to do next.
#[derive(Debug)]
pub enum ExchangeAction {
    /// Register a waiter for the response to this id.
    Register(u128),
    /// Encode the request together with this id.
    Encode(u128),
    /// Send these bytes to the receiver.
    Send(Vec<u8>),
    /// Wait for the response, as long as the timeout allows.
    Wait,
    /// Answer with the response that came back.
    Reply(Response),
    /// Answer with this status code and no header fields.
    ReplyStatus(u16),
    /// Remove the waiter for this id, then answer with this status code and
    /// no header fields.
    RemoveAndReplyStatus(u128, u16),
    /// Nothing: the event does not belong to where the exchange stands.
    Ignore,
}

/// One accepted request on its way through the proxy.
#[derive(Debug, Clone, Copy)]
pub struct Exchange {
    pub id: u128,
    pub state: ExchangeState,
}

/// The state and action that follow `event` in an exchange with `id` that
/// stands at `state`.
pub open spec fn next(state: ExchangeState, id: u128, event: ExchangeEvent) -> (
    ExchangeState,
    ExchangeAction,
) {
    match (state, event) {
        (ExchangeState::Registering, ExchangeEvent::Registered) => (
            ExchangeState::Encoding,
            ExchangeAction::Encode(id),
        ),
        (ExchangeState::Encoding, ExchangeEvent::Encoded(Ok(bytes))) => (
            ExchangeState::Sending,
            ExchangeAction::Send(bytes),
        ),
        (ExchangeState::Encoding, ExchangeEvent::Encoded(Err(_))) => (
            ExchangeState::Finished,
            ExchangeAction::ReplyStatus(BAD_REQUEST),
        ),
        (ExchangeState::Sending, ExchangeEvent::Sent(Ok(_))) => (
            ExchangeState::Waiting,
            ExchangeAction::Wait,
        ),
        (ExchangeState::Sending, ExchangeEvent::Sent(Err(_))) => (
            ExchangeState::Finished,
            ExchangeAction::RemoveAndReplyStatus(id, BAD_GATEWAY),
        ),
        (ExchangeState::Waiting, ExchangeEvent::Waited(Some(response))) => (
            ExchangeState::Finished,
            ExchangeAction::Reply(response),
        ),
        (ExchangeState::Waiting, ExchangeEvent::Waited(None)) => (
            ExchangeState::Finished,
            ExchangeAction::RemoveAndReplyStatus(id, GATEWAY_TIMEOUT),
        ),
        _ => (state, ExchangeAction::Ignore),
    }
}

/// Whether an action answers the request.
pub open spec fn is_reply(action: ExchangeAction) -> bool {
    ||| action is Reply
    ||| action is ReplyStatus
    ||| action is RemoveAndReplyStatus
}

/// How far an exchange has come.
pub open spec fn rank(state: ExchangeState) -> int {
    match state {
        ExchangeState::Registering => 0,
        ExchangeState::Encoding => 1,
        ExchangeState::Sending => 2,
        ExchangeState::Waiting => 3,
        ExchangeState::Finished => 4,
    }
}

/// A fresh random version-4 UUID, as an integer in big-endian order.
/// Calls `uuid::Uuid::new_v4` and `Uuid::as_u128`. The contract claims what
/// `new_v4` sets on every outcome, the version bits (4) and the variant
/// bits (binary 10); the other bits are random. `new_v4` panics where the
/// system gives no random bytes, which no argument can rule out.
#[verifier::external_body]
fn new_request_id() -> (id: u128)
    ensures
        id & 0xF000_C000_0000_0000_0000u128 == 0x4000_8000_0000_0000_0000u128,
{
    uuid::Uuid::new_v4().as_u128()
}

impl Exchange {
    /// An exchange for a request with a fresh random id, and its first
    /// action: register the waiter for that id.
    pub fn start() -> (r: (Exchange, ExchangeAction))
        ensures
            r.0.id & 0xF000_C000_0000_0000_0000u128 == 0x4000_8000_0000_0000_0000u128,
            r.0.state == ExchangeState::Registering,
            r.1 == ExchangeAction::Register(r.0.id),
    {
        Exchange::with_id(new_request_id())
    }

    /// An exchange for a request with the given id, and its first action.
    pub fn with_id(id: u128) -> (r: (Exchange, ExchangeAction))
        ensures
            r.0.id == id,
            r.0.state == ExchangeState::Registering,
            r.1 == ExchangeAction::Register(id),
    {
        (Exchange { id, state: ExchangeState::Registering }, ExchangeAction::Register(id))
    }

    /// Moves the exchange on by what came of the last action, and says what
    /// to do next.
    pub fn step(&mut self, event: ExchangeEvent) -> (action: ExchangeAction)
        ensures
            final(self).id == old(self).id,
            (final(self).state, action) == next(old(self).state, old(self).id, event),
    {
        let id = self.id;
        match (self.state, event) {
            (ExchangeState::Registering, ExchangeEvent::Registered) => {
                self.state = ExchangeState::Encoding;
                ExchangeAction::Encode(id)
            },
            (ExchangeState::Encoding, ExchangeEvent::Encoded(Ok(bytes))) => {
                self.state = ExchangeState::Sending;
                ExchangeAction::Send(bytes)
            },
            (ExchangeState::Encoding, ExchangeEvent::Encoded(Err(_))) => {
                self.state = ExchangeState::Finished;
                ExchangeAction::ReplyStatus(BAD_REQUEST)
            },
            (ExchangeState::Sending, ExchangeEvent::Sent(Ok(_))) => {
                self.state = ExchangeState::Waiting;
                ExchangeAction::Wait
            },
            (ExchangeState::Sending, ExchangeEvent::Sent(Err(_))) => {
                self.state = ExchangeState::Finished;
                ExchangeAction::RemoveAndReplyStatus(id, BAD_GATEWAY)
            },
            (ExchangeState::Waiting, ExchangeEvent::Waited(Some(response))) => {
                self.state = ExchangeState::Finished;
                ExchangeAction::Reply(response)
            },
            (ExchangeState::Waiting, ExchangeEvent::Waited(None)) => {
                self.state = ExchangeState::Finished;
                ExchangeAction::RemoveAndReplyStatus(id, GATEWAY_TIMEOUT)
            },
            _ => ExchangeAction::Ignore,
        }
    }
}

/// A finished exchange stays finished and does nothing more: a request is
/// answered once.
pub proof fn law_finished_is_final(id: u128, event: ExchangeEvent)
    ensures
        next(ExchangeState::Finished, id, event) == (ExchangeState::Finished, ExchangeAction::Ignore),
{
}

/// An exchange finishes exactly on the step that answers the request.
pub proof fn law_reply_finishes(state: ExchangeState, id: u128, event: ExchangeEvent)
    requires
        state != ExchangeState::Finished,
    ensures
        (next(state, id, event).0 == ExchangeState::Finished) == is_reply(next(state, id, event).1),
{
}

/// Every step that does something moves the exchange forward, so an
/// exchange acts at most five times.
pub proof fn law_steps_move_forward(state: ExchangeState, id: u128, event: ExchangeEvent)
    ensures
        next(state, id, event).1 is Ignore ==> next(state, id, event).0 == state,
        !(next(state, id, event).1 is Ignore) ==> rank(state) < rank(next(state, id, event).0),
{
}

/// Once the request has gone out, every answer other than the response
/// that came back removes the waiter for the request: 502 when sending
/// failed, 504 when no response came.
pub proof fn law_failed_exchange_removes_waiter(
    state: ExchangeState,
    id: u128,
    event: ExchangeEvent,
)
    requires
        state == ExchangeState::Sending || state == ExchangeState::Waiting,
        is_reply(next(state, id, event).1),
        !(next(state, id, event).1 is Reply),
    ensures
        next(state, id, event).1 matches ExchangeAction::RemoveAndReplyStatus(i, code) && i == id
            && (code == BAD_GATEWAY || code == GATEWAY_TIMEOUT),
{
}

/// The proxy answers with the far side's response exactly when one came
/// back while it waited.
pub proof fn law_reply_is_received_response(state: ExchangeState, id: u128, event: ExchangeEvent)
    ensures
        next(state, id, event).1 matches ExchangeAction::Reply(r) ==> state
            == ExchangeState::Waiting && event == ExchangeEvent::Waited(Some(r)),
{
}

/// Every action that names a request names the exchange's own id: the waiter
/// is registered, the request encoded and the waiter removed under one id,
/// so the response that comes back under that id finds its waiter.
pub proof fn law_actions_carry_exchange_id(state: ExchangeState, id: u128, event: ExchangeEvent)
    ensures
        next(state, id, event).1 matches ExchangeAction::Register(i) ==> i == id,
        next(state, id, event).1 matches ExchangeAction::Encode(i) ==> i == id,
        next(state, id, event).1 matches ExchangeAction::RemoveAndReplyStatus(i, _) ==> i == id,
{
}

/// Once its waiter is registered, a request is encoded under the id that
/// the waiter was registered with.
pub proof fn law_registered_request_is_encoded_under_its_id(id: u128)
    ensures
        next(ExchangeState::Registering, id, ExchangeEvent::Registered) == (
            ExchangeState::Encoding,
            ExchangeAction::Encode(id),
        ),
{
}

/// The bytes sent to the receiver are exactly the bytes the request was
/// encoded into, and nothing else is ever sent.
pub proof fn law_sent_bytes_are_encoded_request(state: ExchangeState, id: u128, event: ExchangeEvent)
    ensures
        next(state, id, event).1 matches ExchangeAction::Send(b) ==> (state
            == ExchangeState::Encoding && event == ExchangeEvent::Encoded(Ok(b))),
        state == ExchangeState::Encoding ==> (event matches ExchangeEvent::Encoded(Ok(b)) ==> next(
            state,
            id,
            event,
        ).1 == ExchangeAction::Send(b)),
{
}

/// The proxy answers with a status of its own, without removing the waiter,
/// only when the request could not be encoded, and then with 400.
pub proof fn law_own_status_reply_is_bad_request(
    state: ExchangeState,
    id: u128,
    event: ExchangeEvent,
)
    ensures
        next(state, id, event).1 matches ExchangeAction::ReplyStatus(code) ==> (code == BAD_REQUEST
            && state == ExchangeState::Encoding && event is Encoded && event->Encoded_0 is Err),
{
}

/// A response that arrives while the proxy waits is the answer, unchanged:
/// status code and header fields are those the far side gave.
pub proof fn law_arrived_response_is_answered_unchanged(id: u128, response: Response)
    ensures
        next(ExchangeState::Waiting, id, ExchangeEvent::Waited(Some(response))) == (
            ExchangeState::Finished,
            ExchangeAction::Reply(response),
        ),
{
}

/// A request that goes through without a failure registers its waiter,
/// is encoded under its id, is sent as exactly the encoded bytes, is waited
/// for, and is answered with the response that came back, unchanged.
pub proof fn law_exchange_without_failure(id: u128, bytes: Vec<u8>, response: Response)
    ensures
        ({
            let s1 = next(ExchangeState::Registering, id, ExchangeEvent::Registered);
            let s2 = next(s1.0, id, ExchangeEvent::Encoded(Ok(bytes)));
            let s3 = next(s2.0, id, ExchangeEvent::Sent(Ok(())));
            let s4 = next(s3.0, id, ExchangeEvent::Waited(Some(response)));
            &&& s1.1 == ExchangeAction::Encode(id)
            &&& s2.1 == ExchangeAction::Send(bytes)
            &&& s3.1 == ExchangeAction::Wait
            &&& s4 == (ExchangeState::Finished, ExchangeAction::Reply(response))
        }),
{
}

/// A request whose datagram cannot be sent is answered 502, and one whose
/// response does not come in time 504; both remove the request's waiter.
pub proof fn law_refusal_codes(id: u128, send_error: SendError)
    ensures
        next(ExchangeState::Sending, id, ExchangeEvent::Sent(Err(send_error))) == (
            ExchangeState::Finished,
            ExchangeAction::RemoveAndReplyStatus(id, BAD_GATEWAY),
        ),
        next(ExchangeState::Waiting, id, ExchangeEvent::Waited(None)) == (
            ExchangeState::Finished,
            ExchangeAction::RemoveAndReplyStatus(id, GATEWAY_TIMEOUT),
        ),
        BAD_GATEWAY == 502 && GATEWAY_TIMEOUT == 504 && BAD_REQUEST == 400,
{
}

} // verus!
