//! The call serializer: at most one in-flight call into the runtime.
//!
//! The embedded runtime's per-call context is not reentrant across native
//! threads, so every marshal-invoke-unmarshal sequence runs under a
//! process-wide permit, the call token. The token is acquired before
//! marshaling arguments in and released on every exit path, including
//! failure. The contracts express each acquisition and release as a step
//! relation; the proof functions state the mutual-exclusion law over them.

use vstd::prelude::*;

verus! {

/// The process-wide mutual-exclusion permit for calls into the runtime.
pub struct CallSerializer {
    /// Whether a call token is currently outstanding.
    pub in_flight: bool,
}

/// One acquisition attempt as a relation between the serializer before and
/// after it, with `granted` its outcome: the token is granted exactly when
/// none is outstanding, and an outstanding token stays outstanding.
pub open spec fn grant_step(pre: CallSerializer, post: CallSerializer, granted: bool) -> bool {
    &&& granted == !pre.in_flight
    &&& post.in_flight == (pre.in_flight || granted)
}

impl CallSerializer {
    /// A fresh serializer with no call in flight.
    pub fn new() -> (s: CallSerializer)
        ensures
            !s.in_flight,
    {
        CallSerializer { in_flight: false }
    }

    /// Try to take the call token. In a multithreaded embedder the caller
    /// blocks until its attempt is the one that is granted; each attempt is
    /// one `grant_step`.
    pub fn try_acquire(&mut self) -> (granted: bool)
        ensures
            grant_step(*old(self), *final(self), granted),
    {
        if self.in_flight {
            false
        } else {
            self.in_flight = true;
            true
        }
    }

    /// Give the call token back. Only a holder may release, and afterwards
    /// no call is in flight.
    pub fn release(&mut self)
        requires
            old(self).in_flight,
        ensures
            !final(self).in_flight,
    {
        self.in_flight = false;
    }
}

/// Mutual exclusion: once an acquisition has been granted, no further
/// acquisition can be granted until the token is released; the protected
/// regions of two calls can never overlap.
pub proof fn lemma_mutual_exclusion(
    s0: CallSerializer,
    s1: CallSerializer,
    s2: CallSerializer,
    g1: bool,
    g2: bool,
)
    requires
        grant_step(s0, s1, g1),
        g1,
        grant_step(s1, s2, g2),
    ensures
        !g2,
        s2 == s1,
{
}

/// At most one token is ever outstanding: a grant is only possible from a
/// state with no token out, so the count of outstanding tokens never exceeds
/// one.
pub proof fn lemma_single_token(s0: CallSerializer, s1: CallSerializer, g1: bool)
    requires
        grant_step(s0, s1, g1),
        g1,
    ensures
        !s0.in_flight,
        s1.in_flight,
{
}

} // verus!
