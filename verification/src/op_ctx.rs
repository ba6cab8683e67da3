//! One-shot operation contexts.
//!
//! An operation context delivers exactly one terminal result for one
//! submitted operation: it is created `Running`, and exactly one resolving
//! transition to `Succeeded` or `Failed` is permitted. A second resolution
//! attempt is a no-op, never fatal — a timeout racing a completion is an
//! expected event.

use vstd::prelude::*;

verus! {

/// Where an operation stands: still running, finished with a payload, or
/// failed with a textual reason.
#[derive(Clone, Copy, Debug)]
pub enum CtxStatus<T> {
    Running,
    Succeeded(T),
    Failed(&'static str),
}

/// A one-shot completion cell for a single operation.
#[derive(Clone, Copy, Debug)]
pub struct OpCtx<T> {
    status: CtxStatus<T>,
}

/// An operation context awaiting a write completion.
pub type WriteOpCtx = OpCtx<()>;

/// An operation context awaiting a read completion.
pub type ReadOpCtx = OpCtx<()>;

/// An operation context awaiting a control-plane completion, carrying the
/// device's success flag.
pub type CtrlOpCtx = OpCtx<bool>;

impl<T> OpCtx<T> {
    /// The context's current status.
    pub closed spec fn spec_status(&self) -> CtxStatus<T> {
        self.status
    }

    /// True while no terminal transition has happened.
    pub open spec fn is_running(&self) -> bool {
        self.spec_status() is Running
    }

    /// Creates a context in the `Running` state.
    pub fn new_running() -> (r: OpCtx<T>)
        ensures
            r.spec_status() is Running,
    {
        OpCtx { status: CtxStatus::Running }
    }

    /// Resolves the context as succeeded with `value`. Exactly one resolving
    /// transition is permitted: on an already-terminal context this is a
    /// no-op, and the call reports whether it resolved.
    pub fn set_result(&mut self, value: T) -> (resolved: bool)
        ensures
            old(self).is_running() ==> final(self).spec_status() == CtxStatus::Succeeded(value),
            !old(self).is_running() ==> *final(self) == *old(self),
            resolved == old(self).is_running(),
    {
        match self.status {
            CtxStatus::Running => {
                self.status = CtxStatus::Succeeded(value);
                true
            },
            _ => false,
        }
    }

    /// Resolves the context as failed for `reason`. Exactly one resolving
    /// transition is permitted: on an already-terminal context this is a
    /// no-op, and the call reports whether it resolved.
    pub fn set_error(&mut self, reason: &'static str) -> (resolved: bool)
        ensures
            old(self).is_running() ==> final(self).spec_status() == CtxStatus::<T>::Failed(reason),
            !old(self).is_running() ==> *final(self) == *old(self),
            resolved == old(self).is_running(),
    {
        match self.status {
            CtxStatus::Running => {
                self.status = CtxStatus::Failed(reason);
                true
            },
            _ => false,
        }
    }

    /// Inspects the status without consuming it.
    pub fn status(&self) -> (r: &CtxStatus<T>)
        ensures
            *r == self.spec_status(),
    {
        &self.status
    }
}

impl<T: Copy> OpCtx<T> {
    /// The terminal outcome, if any: `None` while running, `Some(Some(v))`
    /// once succeeded with `v`, `Some(None)` once failed. A caller that must
    /// block until the outcome exists polls or parks around this call.
    pub fn terminal_result(&self) -> (r: Option<Option<T>>)
        ensures
            self.spec_status() is Running <==> r is None,
            forall|v: T| self.spec_status() == CtxStatus::Succeeded(v) <==> r == Some(Some(v)),
            self.spec_status() is Failed <==> r == Some(Option::<T>::None),
    {
        match &self.status {
            CtxStatus::Running => None,
            CtxStatus::Succeeded(v) => Some(Some(*v)),
            CtxStatus::Failed(_) => Some(None),
        }
    }
}

} // verus!
