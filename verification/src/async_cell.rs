//! Exclusive access to one resource, with two ways to acquire it.

use vstd::prelude::*;

verus! {

/// Names one borrow attempt. The caller picks it; the promise id of the op
/// that borrows is the usual choice.
pub type BorrowerId = u64;

/// The outcome of a suspending acquisition.
#[derive(Clone, Copy, Debug, PartialEq, Eq, Structural)]
pub enum Acquire {
    /// The caller holds the borrow now.
    Acquired,
    /// The caller was put at the back of the queue.
    Queued,
}

/// The contention outcome of a fail-fast acquisition.
#[derive(Clone, Copy, Debug, PartialEq, Eq, Structural)]
pub struct Busy;

/// The borrow state of one resource: who holds the exclusive borrow, and
/// who waits for it, first come first.
#[derive(Debug)]
pub struct AsyncRefCell {
    holder: Option<BorrowerId>,
    waiters: Vec<BorrowerId>,
}

impl AsyncRefCell {
    /// Who holds the exclusive borrow.
    pub closed spec fn holder(&self) -> Option<BorrowerId> {
        self.holder
    }

    /// Who waits, first come first.
    pub closed spec fn waiters(&self) -> Seq<BorrowerId> {
        self.waiters@
    }

    pub open spec fn spec_is_borrowed(&self) -> bool {
        self.holder() is Some
    }

    /// Nobody waits for a free cell.
    pub open spec fn wf(&self) -> bool {
        self.waiters().len() > 0 ==> self.holder() is Some
    }

    /// A free cell.
    pub fn new() -> (c: AsyncRefCell)
        ensures
            c.wf(),
            c.holder() is None,
            c.waiters() =~= Seq::empty(),
    {
        AsyncRefCell { holder: None, waiters: Vec::new() }
    }

    #[verifier::when_used_as_spec(spec_is_borrowed)]
    pub fn is_borrowed(&self) -> (b: bool)
        ensures
            b == self.spec_is_borrowed(),
    {
        self.holder.is_some()
    }

    /// Whether `who` holds the borrow.
    pub fn is_held_by(&self, who: BorrowerId) -> (b: bool)
        ensures
            b == (self.holder() == Some(who)),
    {
        match self.holder {
            Some(h) => h == who,
            None => false,
        }
    }

    /// How many callers wait.
    pub fn waiting(&self) -> (n: usize)
        ensures
            n == self.waiters().len(),
    {
        self.waiters.len()
    }

    /// Acquires the borrow if the cell is free, and fails without waiting
    /// and without a trace if it is not.
    pub fn try_borrow_mut(&mut self, who: BorrowerId) -> (r: Result<(), Busy>)
        requires
            old(self).wf(),
        ensures
            final(self).wf(),
            r is Ok <==> !old(self).spec_is_borrowed(),
            r is Ok ==> final(self).holder() == Some(who),
            r is Err ==> *final(self) == *old(self),
            final(self).waiters() == old(self).waiters(),
    {
        if self.holder.is_some() {
            Err(Busy)
        } else {
            self.holder = Some(who);
            Ok(())
        }
    }

    /// Acquires the borrow if the cell is free; else joins the queue.
    pub fn borrow_mut(&mut self, who: BorrowerId) -> (r: Acquire)
        requires
            old(self).wf(),
        ensures
            final(self).wf(),
            r == (if old(self).spec_is_borrowed() { Acquire::Queued } else { Acquire::Acquired }),
            r == Acquire::Acquired ==> final(self).holder() == Some(who) && final(self).waiters()
                == old(self).waiters(),
            r == Acquire::Queued ==> final(self).holder() == old(self).holder()
                && final(self).waiters() == old(self).waiters().push(who),
    {
        if self.holder.is_some() {
            self.waiters.push(who);
            Acquire::Queued
        } else {
            self.holder = Some(who);
            Acquire::Acquired
        }
    }

    /// Ends the borrow that `who` holds and hands the cell to the caller
    /// that has waited longest, whom it returns. Does nothing if `who` does
    /// not hold the borrow.
    pub fn release(&mut self, who: BorrowerId) -> (next: Option<BorrowerId>)
        requires
            old(self).wf(),
        ensures
            final(self).wf(),
            old(self).holder() != Some(who) ==> next is None && final(self).holder() == old(
                self,
            ).holder() && final(self).waiters() == old(self).waiters(),
            old(self).holder() == Some(who) && old(self).waiters().len() == 0 ==> next is None
                && final(self).holder() is None && final(self).waiters() == old(self).waiters(),
            old(self).holder() == Some(who) && old(self).waiters().len() > 0 ==> next == Some(
                old(self).waiters()[0],
            ) && final(self).holder() == next && final(self).waiters() == old(
                self,
            ).waiters().subrange(1, old(self).waiters().len() as int),
    {
        if !self.is_held_by(who) {
            return None;
        }
        if self.waiters.len() == 0 {
            self.holder = None;
            None
        } else {
            let first = self.waiters.remove(0);
            self.holder = Some(first);
            Some(first)
        }
    }

    /// Takes `who` out of the queue, at the first place where it stands.
    /// Says whether it stood there.
    pub fn cancel_wait(&mut self, who: BorrowerId) -> (found: bool)
        requires
            old(self).wf(),
        ensures
            final(self).wf(),
            final(self).holder() == old(self).holder(),
            found == old(self).waiters().contains(who),
            found ==> exists|i: int|
                0 <= i < old(self).waiters().len() && old(self).waiters()[i] == who
                    && first_at(old(self).waiters(), who, i) && final(self).waiters() == old(
                    self,
                ).waiters().remove(i),
            !found ==> final(self).waiters() == old(self).waiters(),
    {
        let mut i: usize = 0;
        while i < self.waiters.len()
            invariant
                i <= self.waiters.len(),
                self.waiters@ == old(self).waiters@,
                self.holder == old(self).holder,
                old(self).wf(),
                first_at(self.waiters@, who, i as int),
            decreases self.waiters.len() - i,
        {
            if self.waiters[i] == who {
                self.waiters.remove(i);
                return true;
            }
            i += 1;
        }
        false
    }
}

/// No place of `s` before `i` holds `who`.
pub open spec fn first_at(s: Seq<BorrowerId>, who: BorrowerId, i: int) -> bool {
    forall|j: int| 0 <= j < i && j < s.len() ==> s[j] != who
}

} // verus!
