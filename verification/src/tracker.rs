use std::collections::HashMap;

use vstd::prelude::*;

verus! {

/// The reply-to address carried by a command: the host invokes the
/// caller's completion under this identifier.
pub type CallbackId = u64;

/// The mapping from an in-flight submission identifier to the reply-to
/// address of its waiting caller.
///
/// An entry is created the instant the pool accepts a submission and is
/// removed the instant the matching acknowledgement arrives; at most one
/// resolution is delivered per registration.
pub struct SubmissionTracker {
    callbacks: HashMap<i32, CallbackId>,
}

impl SubmissionTracker {
    /// The currently pending entries.
    pub closed spec fn view(&self) -> Map<i32, CallbackId> {
        self.callbacks@
    }

    pub fn new() -> (r: Self)
        ensures
            r@ == Map::<i32, CallbackId>::empty(),
    {
        SubmissionTracker { callbacks: HashMap::new() }
    }

    /// Stores `cb` under `id`, the identifier the pool just assigned.
    pub fn register(&mut self, id: i32, cb: CallbackId)
        ensures
            final(self)@ == old(self)@.insert(id, cb),
    {
        self.callbacks.insert(id, cb);
    }

    /// Removes and returns the reply-to address registered under `id`. An
    /// identifier that is not pending — never registered, or registered
    /// and already resolved — yields nothing and leaves the pending
    /// entries untouched.
    pub fn resolve(&mut self, id: i32) -> (r: Option<CallbackId>)
        ensures
            match r {
                Some(cb) => {
                    &&& old(self)@.contains_key(id)
                    &&& cb == old(self)@[id]
                    &&& final(self)@ == old(self)@.remove(id)
                },
                None => {
                    &&& !old(self)@.contains_key(id)
                    &&& final(self)@ == old(self)@
                },
            },
    {
        let r = self.callbacks.remove(&id);
        proof {
            if r is None {
                assert(old(self)@.remove(id) =~= old(self)@);
            }
        }
        r
    }

    /// Whether an entry is registered under `id`.
    pub fn is_pending(&self, id: i32) -> (r: bool)
        ensures
            r == self@.contains_key(id),
    {
        self.callbacks.contains_key(&id)
    }

    /// The number of pending entries.
    pub fn pending_count(&self) -> (r: usize)
        ensures
            r == self@.len(),
    {
        self.callbacks.len()
    }
}

/// Law: a registration is matched by at most one resolution. Once the
/// entry registered under an identifier has been removed, that identifier
/// is pending no longer, so a further resolution of it finds no callback.
pub proof fn lemma_second_resolve_finds_nothing(pending: Map<i32, CallbackId>, id: i32)
    ensures
        !pending.remove(id).contains_key(id),
{
}

} // verus!
