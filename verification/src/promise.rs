//! Tri-state container for the lifecycle of one asynchronous value.
//!
//! A [`Promise`] is either not yet requested, in flight, or resolved.  Every
//! in-flight request carries a correlation key; a resolution is accepted only
//! while its key is the one currently deferred, so results that arrive late
//! relative to a newer request are silently dropped.  That key-matching rule
//! is the subsystem's cancellation mechanism: cooperative and result-based,
//! never preemptive.

use vstd::prelude::*;

use crate::error::Error;

verus! {

/// A correlation key: an opaque identifier comparable for equality, derived
/// from the logical request.  Keys decide staleness only, never ordering.
pub trait Key: Sized {
    /// Whether two keys identify the same logical request.
    spec fn key_eq_spec(&self, other: &Self) -> bool;

    /// Every key identifies the same request as itself.
    proof fn lemma_key_eq_refl(&self)
        ensures
            self.key_eq_spec(self),
    ;

    /// Executable equality test, agreeing with [`Self::key_eq_spec`].
    fn key_matches(&self, other: &Self) -> (r: bool)
        ensures
            r == self.key_eq_spec(other),
    ;
}

/// The lifecycle of one asynchronous value of type `T`, correlated by keys of
/// type `K`.  Observers branch on the state: `Empty` renders nothing,
/// `Deferred` a loading indicator, `Resolved` the value or an error
/// placeholder.  No blocking read is offered.
pub enum Promise<T, K> {
    /// Not yet requested.
    Empty,
    /// In flight: the request identified by the key was submitted and has not
    /// resolved yet.  At most one request is outstanding per promise; a new
    /// `defer` overwrites the key.
    Deferred(K),
    /// The request identified by the key completed with the given result.
    Resolved(K, Result<T, Error>),
}

impl<T, K: Key> Promise<T, K> {
    /// The state after deferring the request identified by `key`: any
    /// previous resolved value is discarded for observers.
    pub open spec fn defer_spec(self, key: K) -> Self {
        Promise::Deferred(key)
    }

    /// Whether a resolution carrying `key` would be accepted: only while the
    /// promise is in flight for a key identifying the same request.
    pub open spec fn accepts(self, key: K) -> bool {
        match self {
            Promise::Deferred(pending) => key.key_eq_spec(&pending),
            _ => false,
        }
    }

    /// The state after a resolution carrying `key` arrives: a transition into
    /// `Resolved` if the key matches the pending one, otherwise the result is
    /// for a superseded request and the state is unchanged.
    pub open spec fn update_spec(self, key: K, value: Result<T, Error>) -> Self {
        if self.accepts(key) {
            Promise::Resolved(key, value)
        } else {
            self
        }
    }

    /// A promise that has not been requested yet.
    pub fn empty() -> (p: Self)
        ensures
            p == Promise::<T, K>::Empty,
    {
        Promise::Empty
    }

    /// Transitions to in-flight for the request identified by `key`.
    pub fn defer(&mut self, key: K)
        ensures
            *final(self) == old(self).defer_spec(key),
    {
        *self = Promise::Deferred(key);
    }

    /// Delivers the result of the request identified by `key`.  If `key`
    /// matches the currently pending key the promise resolves; otherwise the
    /// call is a no-op and the stale result is dropped without side effects.
    pub fn update(&mut self, key: K, value: Result<T, Error>)
        ensures
            *final(self) == old(self).update_spec(key, value),
    {
        let accepted = match &*self {
            Promise::Deferred(pending) => key.key_matches(pending),
            _ => false,
        };
        if accepted {
            *self = Promise::Resolved(key, value);
        }
    }
}

/// Law: in the sequence `defer(k1)`, `update(k1, r1)`, `defer(k2)`, a late
/// `update` still carrying `k1` is a no-op, whatever it carries; only an
/// update carrying `k2` can change the observed state, and it resolves the
/// promise with its result.
pub proof fn lemma_stale_update_is_noop<T, K: Key>(
    p: Promise<T, K>,
    k1: K,
    k2: K,
    r1: Result<T, Error>,
    late: Result<T, Error>,
    fresh: Result<T, Error>,
)
    requires
        !k1.key_eq_spec(&k2),
    ensures
        ({
            let q = p.defer_spec(k1).update_spec(k1, r1).defer_spec(k2);
            &&& q.update_spec(k1, late) == q
            &&& q.update_spec(k2, fresh) == Promise::<T, K>::Resolved(k2, fresh)
        }),
{
    k2.lemma_key_eq_refl();
}

} // verus!
