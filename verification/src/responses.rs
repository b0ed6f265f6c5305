use std::collections::HashMap;

use vstd::prelude::*;
use vstd::std_specs::hash::group_hash_axioms;

verus! {

broadcast use group_hash_axioms;

/// The requests that wait for a response, each by its id, with the handle
/// that the response is to be handed to.
pub struct ResponseMap<V> {
    waiting: HashMap<u128, V>,
}

impl<V> View for ResponseMap<V> {
    type V = Map<u128, V>;

    closed spec fn view(&self) -> Map<u128, V> {
        self.waiting@
    }
}

/// The handle that waits for the response to `id` in `waiting`, if any.
pub open spec fn waiter_of<V>(waiting: Map<u128, V>, id: u128) -> Option<V> {
    if waiting.contains_key(id) {
        Some(waiting[id])
    } else {
        None
    }
}

impl<V> ResponseMap<V> {
    /// A map in which nothing waits.
    pub fn new() -> (r: ResponseMap<V>)
        ensures
            r@ == Map::<u128, V>::empty(),
    {
        ResponseMap { waiting: HashMap::new() }
    }

    /// The number of requests that wait.
    pub fn len(&self) -> (n: usize)
        ensures
            n == self@.len(),
    {
        self.waiting.len()
    }

    /// Whether a request with `id` waits.
    pub fn is_waiting(&self, id: u128) -> (b: bool)
        ensures
            b == self@.contains_key(id),
    {
        self.waiting.contains_key(&id)
    }

    /// Registers `waiter` as the one that the response to `id` goes to; a
    /// waiter registered before for `id` is dropped.
    pub fn request_response(&mut self, id: u128, waiter: V)
        ensures
            final(self)@ == old(self)@.insert(id, waiter),
    {
        let _ = self.waiting.insert(id, waiter);
    }

    /// Forgets the waiter for `id`, if there is one.
    pub fn remove_response(&mut self, id: u128)
        ensures
            final(self)@ == old(self)@.remove(id),
    {
        let _ = self.waiting.remove(&id);
    }

    /// Takes out the waiter for `id`, so that the response to `id` can be
    /// handed to it; `None` where nothing waits for `id`.
    pub fn receive_response(&mut self, id: u128) -> (w: Option<V>)
        ensures
            w == waiter_of(old(self)@, id),
            final(self)@ == old(self)@.remove(id),
    {
        self.waiting.remove(&id)
    }
}

impl<V> Default for ResponseMap<V> {
    fn default() -> (r: ResponseMap<V>)
        ensures
            r@ == Map::<u128, V>::empty(),
    {
        ResponseMap::new()
    }
}

/// A response received for a registered request goes to the waiter
/// registered for it, and takes that waiter out.
pub proof fn law_receive_gives_registered_waiter<V>(waiting: Map<u128, V>, id: u128, waiter: V)
    ensures
        waiter_of(waiting.insert(id, waiter), id) == Some(waiter),
        waiting.insert(id, waiter).remove(id) == waiting.remove(id),
{
    assert(waiting.insert(id, waiter).remove(id) =~= waiting.remove(id));
}

/// Once taken out or removed, a waiter is not found again: each request
/// gets at most one response.
pub proof fn law_receive_at_most_once<V>(waiting: Map<u128, V>, id: u128)
    ensures
        waiter_of(waiting.remove(id), id) is None,
{
}

/// Registering, removing or taking out the waiter of one request leaves
/// the waiters of all other requests as they were.
pub proof fn law_other_requests_unaffected<V>(
    waiting: Map<u128, V>,
    id: u128,
    other: u128,
    waiter: V,
)
    requires
        id != other,
    ensures
        waiter_of(waiting.insert(id, waiter), other) == waiter_of(waiting, other),
        waiter_of(waiting.remove(id), other) == waiter_of(waiting, other),
{
}

/// Registering a waiter for a new id and then removing it leaves the map
/// as it was: a request that is answered without a response leaves no
/// waiter behind.
pub proof fn law_remove_undoes_request<V>(waiting: Map<u128, V>, id: u128, waiter: V)
    requires
        !waiting.contains_key(id),
    ensures
        waiting.insert(id, waiter).remove(id) == waiting,
{
    assert(waiting.insert(id, waiter).remove(id) =~= waiting);
}

} // verus!
