//! Bookkeeping of the DevTools protocol client: the identifiers of requests,
//! the calls still waiting for their response, and what a response hands
//! back to its caller. The socket traffic is done by the caller.

use vstd::prelude::*;
use std::collections::HashSet;

verus! {

broadcast use vstd::std_specs::hash::group_hash_axioms;

/// The identifier that follows `id`: one more, wrapping around at
/// `u64::MAX` as the client's atomic counter does.
pub open spec fn next_request_id(id: u64) -> u64 {
    if id == u64::MAX { 0 } else { (id + 1) as u64 }
}

/// Whether a response with identifier `id` (none for an event) answers one
/// of the `waiting` calls.
pub open spec fn delivers(waiting: Set<u64>, id: Option<u64>) -> bool {
    id matches Some(i) && waiting.contains(i)
}

/// The calls still waiting once a response with identifier `id` arrived.
pub open spec fn settled(waiting: Set<u64>, id: Option<u64>) -> Set<u64> {
    match id {
        Some(i) => waiting.remove(i),
        None => waiting,
    }
}

/// The identifiers handed out and the calls still waiting for a response.
pub struct CallBook {
    next_id: u64,
    pending: HashSet<u64>,
}

impl CallBook {
    /// The identifier the next call gets.
    pub closed spec fn next(&self) -> u64 {
        self.next_id
    }

    /// The identifiers of the calls waiting for a response.
    pub closed spec fn waiting(&self) -> Set<u64> {
        self.pending@
    }

    /// No call yet; identifiers start at 1.
    pub fn new() -> (b: CallBook)
        ensures
            b.next() == 1,
            b.waiting() == Set::<u64>::empty(),
    {
        CallBook { next_id: 1, pending: HashSet::new() }
    }

    /// Starts a call: hands out the next identifier and records the call as
    /// waiting.
    pub fn begin(&mut self) -> (id: u64)
        ensures
            id == old(self).next(),
            final(self).next() == next_request_id(old(self).next()),
            final(self).waiting() == old(self).waiting().insert(id),
    {
        let id = self.next_id;
        self.next_id = self.next_id.wrapping_add(1);
        let _ = self.pending.insert(id);
        id
    }

    /// A response arrived with identifier `id` (none for an event): whether
    /// it answers a waiting call, which then stops waiting. Events and
    /// responses to calls that no longer wait are dropped.
    pub fn settle(&mut self, id: Option<u64>) -> (delivered: bool)
        ensures
            delivered == delivers(old(self).waiting(), id),
            final(self).waiting() == settled(old(self).waiting(), id),
            final(self).next() == old(self).next(),
    {
        match id {
            Some(i) => self.pending.remove(&i),
            None => false,
        }
    }

    /// A call stopped waiting without a response (it timed out).
    pub fn abandon(&mut self, id: u64)
        ensures
            final(self).waiting() == old(self).waiting().remove(id),
            final(self).next() == old(self).next(),
    {
        let _ = self.pending.remove(&id);
    }
}

/// What the caller of a DevTools method gets for a response: the protocol
/// error's message when the response carries one, else the response's result
/// (`None` when it has none, which the caller reads as `null`).
pub fn reply_outcome<T>(error_message: Option<String>, result: Option<T>) -> (res: Result<Option<T>, String>)
    ensures
        match error_message {
            Some(m) => res == Err::<Option<T>, String>(m),
            None => res == Ok::<Option<T>, String>(result),
        },
{
    match error_message {
        Some(m) => Err(m),
        None => Ok(result),
    }
}

/// A response is delivered to its caller at most once: once delivered, the
/// call no longer waits, so a repeated response with the same identifier is
/// dropped; the other waiting calls are untouched. A call that was just
/// started is answered by a response with its identifier.
pub proof fn lemma_response_delivered_once(waiting: Set<u64>, id: Option<u64>)
    ensures
        delivers(waiting, id) ==> !delivers(settled(waiting, id), id),
        forall|k: u64| id != Some(k) ==> (settled(waiting, id).contains(k) == waiting.contains(k)),
        id matches Some(i) ==> delivers(waiting.insert(i), id),
{
}

/// Consecutive calls get different identifiers.
pub proof fn lemma_consecutive_ids_differ(id: u64)
    ensures
        next_request_id(id) != id,
{
}

} // verus!
