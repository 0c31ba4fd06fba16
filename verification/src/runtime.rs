//! The runtime host: owns the single embedded-runtime instance.
//!
//! The host boots the runtime at most once per process, on first use, from a
//! fixed configuration. A failed boot is fatal for the bridge: the host stays
//! failed and is never asked to boot again. The embedding application keeps
//! one host per process behind a one-time-initialization primitive; the
//! contracts here describe each step of that serialized history, and the
//! proof functions state the exactly-once and idempotence laws over them.

use vstd::prelude::*;

verus! {

/// Lifecycle of the embedded runtime inside the host process.
#[derive(Clone, Copy, PartialEq, Eq, Structural)]
pub enum HostState {
    /// Not yet booted; the first caller will boot it.
    Dormant,
    /// Booted and usable for the rest of the process lifetime.
    Ready,
    /// The boot failed; every later operation must report failure.
    Failed,
}

/// The process-wide owner of the embedded-runtime instance.
pub struct RuntimeHost {
    /// Where the runtime stands in its lifecycle.
    pub state: HostState,
    /// How many boot sequences have actually been performed.
    pub boots: u64,
    /// Whether the fixed configuration (runtime binary, classpath, interface
    /// version) is valid, decided by the environment once per process.
    pub config_ok: bool,
}

impl RuntimeHost {
    /// The host's invariant: it is dormant exactly until the one boot.
    pub open spec fn wf(self) -> bool {
        &&& self.state is Dormant <==> self.boots == 0
        &&& self.boots <= 1
    }

    /// One `ensure_booted` call as a relation between the states before and
    /// after it, with `ready` its return value.
    pub open spec fn boot_step(pre: RuntimeHost, post: RuntimeHost, ready: bool) -> bool {
        &&& post.config_ok == pre.config_ok
        &&& (pre.state is Dormant ==> post.boots == pre.boots + 1 && (post.state == (
        if pre.config_ok {
            HostState::Ready
        } else {
            HostState::Failed
        })))
        &&& (!(pre.state is Dormant) ==> post == pre)
        &&& ready <==> post.state is Ready
    }

    /// A fresh host: nothing booted yet.
    pub fn new(config_ok: bool) -> (h: RuntimeHost)
        ensures
            h.wf(),
            h.state is Dormant,
            h.boots == 0,
            h.config_ok == config_ok,
    {
        RuntimeHost { state: HostState::Dormant, boots: 0, config_ok }
    }

    /// Boot the runtime if this is the first use; otherwise read the already
    /// decided outcome. Returns whether the runtime is ready for calls.
    pub fn ensure_booted(&mut self) -> (ready: bool)
        requires
            old(self).wf(),
        ensures
            final(self).wf(),
            RuntimeHost::boot_step(*old(self), *final(self), ready),
    {
        match self.state {
            HostState::Dormant => {
                self.boots = self.boots + 1;
                if self.config_ok {
                    self.state = HostState::Ready;
                    true
                } else {
                    self.state = HostState::Failed;
                    false
                }
            },
            HostState::Ready => true,
            HostState::Failed => false,
        }
    }

    /// The state the host reaches once asked to boot: ready exactly when it
    /// already is, or when it is still dormant and the configuration is valid.
    pub open spec fn up_after_boot(self) -> bool {
        if self.state is Dormant {
            self.config_ok
        } else {
            self.state is Ready
        }
    }
}

/// Exactly-once initialization: however many times the host is asked for the
/// runtime, only the first request out of a dormant state performs a boot;
/// every later request leaves the host untouched and observes the same
/// outcome.
pub proof fn lemma_boot_exactly_once(
    s0: RuntimeHost,
    s1: RuntimeHost,
    s2: RuntimeHost,
    r1: bool,
    r2: bool,
)
    requires
        s0.wf(),
        s0.state is Dormant,
        RuntimeHost::boot_step(s0, s1, r1),
        RuntimeHost::boot_step(s1, s2, r2),
    ensures
        s1.boots == 1,
        s2 == s1,
        r2 == r1,
{
}

/// A failed boot is permanent: from a failed host, any number of further
/// requests still observes failure and never boots again.
pub proof fn lemma_failure_is_fatal(s0: RuntimeHost, s1: RuntimeHost, r1: bool)
    requires
        s0.wf(),
        s0.state is Failed,
        RuntimeHost::boot_step(s0, s1, r1),
    ensures
        s1 == s0,
        !r1,
{
}

} // verus!
