//! Cooperative cancellation.

use vstd::prelude::*;

verus! {

/// What a suspended operation yields at a scheduling point.
#[derive(Debug, PartialEq, Eq)]
pub enum Poll<T> {
    Ready(T),
    Pending,
}

/// The outcome of a wait that was cancelled.
#[derive(Clone, Copy, Debug, PartialEq, Eq, Structural)]
pub struct Canceled;

/// A cancellation signal. Once triggered it stays triggered.
#[derive(Clone, Copy, Debug, PartialEq, Eq, Structural)]
pub struct CancelHandle {
    canceled: bool,
}

impl CancelHandle {
    pub closed spec fn spec_is_canceled(&self) -> bool {
        self.canceled
    }

    /// A handle that has not been triggered.
    pub fn new() -> (h: CancelHandle)
        ensures
            !h.spec_is_canceled(),
    {
        CancelHandle { canceled: false }
    }

    /// Triggers the signal.
    pub fn cancel(&mut self)
        ensures
            final(self).spec_is_canceled(),
    {
        self.canceled = true;
    }

    #[verifier::when_used_as_spec(spec_is_canceled)]
    pub fn is_canceled(&self) -> (b: bool)
        ensures
            b == self.spec_is_canceled(),
    {
        self.canceled
    }
}

impl Default for CancelHandle {
    fn default() -> (h: CancelHandle)
        ensures
            !h.spec_is_canceled(),
    {
        CancelHandle::new()
    }
}

/// What a cancellable wait yields at one scheduling point: `Canceled` if
/// the signal was triggered, whatever the wait has; else the value if the
/// wait has one; else pending.
pub open spec fn spec_or_cancel<T>(ready: Option<T>, cancel: CancelHandle) -> Poll<Result<T, Canceled>> {
    if cancel.spec_is_canceled() {
        Poll::Ready(Err(Canceled))
    } else {
        match ready {
            Some(v) => Poll::Ready(Ok(v)),
            None => Poll::Pending,
        }
    }
}

/// Races a wait against a cancellation signal, at one scheduling point.
/// `ready` is what the wait has produced so far.
pub fn or_cancel<T>(ready: Option<T>, cancel: &CancelHandle) -> (p: Poll<Result<T, Canceled>>)
    ensures
        p == spec_or_cancel(ready, *cancel),
{
    if cancel.is_canceled() {
        Poll::Ready(Err(Canceled))
    } else {
        match ready {
            Some(v) => Poll::Ready(Ok(v)),
            None => Poll::Pending,
        }
    }
}

/// A cancelled wait never stays pending and never goes on: whatever the
/// wait has, it resolves as cancelled.
pub proof fn lemma_cancelled_wait_resolves<T>(ready: Option<T>, cancel: CancelHandle)
    requires
        cancel.spec_is_canceled(),
    ensures
        spec_or_cancel(ready, cancel) == Poll::Ready(Err::<T, Canceled>(Canceled)),
{
}

} // verus!
