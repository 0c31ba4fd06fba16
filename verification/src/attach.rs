//! The thread attachment manager.
//!
//! A native thread may issue calls into the embedded runtime only while it
//! holds a live attachment to it. The manager attaches a thread on its first
//! call and caches the attachment for the rest of the thread's life (the
//! cheaper of the two designs; detachment happens on thread exit). A failed
//! attachment is a per-call error, never a process abort, and is retried on
//! the next call. The model tracks the attachment state one calling thread
//! observes; a multithreaded embedder drives one such history per thread.

use vstd::prelude::*;

verus! {

/// Attachment state of the calling thread, as the bridge sees it.
pub struct AttachmentManager {
    /// Whether the calling thread already holds a live execution context.
    pub attached: bool,
    /// Whether the runtime accepts new attachments, decided by the
    /// environment once per process.
    pub attach_ok: bool,
}

/// One attachment attempt as a relation between the states before and after
/// it, with `ctx` whether the thread holds a live context afterwards.
pub open spec fn attach_step(pre: AttachmentManager, post: AttachmentManager, ctx: bool) -> bool {
    &&& post.attach_ok == pre.attach_ok
    &&& post.attached == (pre.attached || pre.attach_ok)
    &&& ctx == post.attached
}

impl AttachmentManager {
    /// A manager for a thread that has never called into the runtime.
    pub fn new(attach_ok: bool) -> (m: AttachmentManager)
        ensures
            !m.attached,
            m.attach_ok == attach_ok,
    {
        AttachmentManager { attached: false, attach_ok }
    }

    /// Reuse the cached attachment, or attach the thread now. Returns
    /// whether the thread holds a live execution context.
    pub fn ensure_attached(&mut self) -> (ctx: bool)
        ensures
            attach_step(*old(self), *final(self), ctx),
    {
        if self.attached {
            true
        } else if self.attach_ok {
            self.attached = true;
            true
        } else {
            false
        }
    }
}

/// Attachment is cached: once a thread is attached, every later attempt
/// reuses the same attachment and cannot fail.
pub proof fn lemma_attachment_cached(
    m0: AttachmentManager,
    m1: AttachmentManager,
    m2: AttachmentManager,
    c1: bool,
    c2: bool,
)
    requires
        attach_step(m0, m1, c1),
        c1,
        attach_step(m1, m2, c2),
    ensures
        c2,
        m2 == m1,
{
}

} // verus!
