use vstd::prelude::*;

use crate::relay::DecodeError;
use crate::response::Response;
use crate::responses::{waiter_of, ResponseMap};

verus! {

/// What the sender does with a datagram that came back from the receiver,
/// once it is decoded: the response goes to the waiter registered for its
/// id, which is taken out of the map; a response that nobody waits for is
/// dropped. A datagram that could not be decoded is an error and leaves the
/// map as it was.
pub fn on_response_received<V>(
    waiting: &mut ResponseMap<V>,
    received: Result<(u128, Response), DecodeError>,
) -> (r: Result<Option<(V, Response)>, DecodeError>)
    ensures
        match received {
            Err(_) => r is Err && final(waiting)@ == old(waiting)@,
            Ok((id, response)) => {
                &&& final(waiting)@ == old(waiting)@.remove(id)
                &&& r == Ok::<Option<(V, Response)>, DecodeError>(
                    match waiter_of(old(waiting)@, id) {
                        Some(w) => Some((w, response)),
                        None => None,
                    },
                )
            },
        },
{
    match received {
        Err(e) => Err(e),
        Ok((id, response)) => match waiting.receive_response(id) {
            Some(w) => Ok(Some((w, response))),
            None => Ok(None),
        },
    }
}

} // verus!
