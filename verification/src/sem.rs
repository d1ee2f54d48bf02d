//! The counting semaphore's permit count.
//!
//! Waiting on a semaphore is a loop around a wait queue: sleep until a permit
//! seems to be there, then try to take it; whoever loses the race for the
//! permit sleeps again. The queue belongs to the kernel. This module owns the
//! count and the attempt to take a permit.

use vstd::prelude::*;

verus! {

/// The permits of a counting semaphore.
pub struct Semaphore {
    count: isize,
}

impl View for Semaphore {
    type V = int;

    /// The number of permits at hand.
    closed spec fn view(&self) -> int {
        self.count as int
    }
}

/// The count after a post: one permit more.
pub open spec fn spec_up(count: int) -> int {
    count + 1
}

/// Whether an attempt to take a permit succeeds: only if there is one.
pub open spec fn spec_down_succeeds(count: int) -> bool {
    count > 0
}

/// The count after an attempt to take a permit: one less if there was one,
/// unchanged if not.
pub open spec fn spec_try_down(count: int) -> int {
    if spec_down_succeeds(count) {
        count - 1
    } else {
        count
    }
}

impl Semaphore {
    /// The semaphore's invariant: the count is never negative.
    pub closed spec fn wf(&self) -> bool {
        self.count >= 0
    }

    /// A semaphore with `count` permits.
    pub fn new(count: isize) -> (sem: Self)
        requires
            count >= 0,
        ensures
            sem.wf(),
            sem@ == count,
    {
        Semaphore { count }
    }

    /// The number of permits at hand.
    pub fn count(&self) -> (count: isize)
        ensures
            count == self@,
    {
        self.count
    }

    /// Whether a waiter would find a permit now. This is the condition that
    /// waiters sleep on.
    pub fn available(&self) -> (yes: bool)
        ensures
            yes == spec_down_succeeds(self@),
    {
        self.count > 0
    }

    /// Posts: adds one permit. The caller then wakes at most one waiter.
    pub fn up(&mut self)
        requires
            old(self).wf(),
            old(self)@ < isize::MAX,
        ensures
            final(self).wf(),
            final(self)@ == spec_up(old(self)@),
    {
        self.count = self.count + 1;
    }

    /// One attempt of a wait: takes a permit if there is one and says
    /// whether it did. A waiter that gets `false` goes back to sleep and
    /// tries again when it is woken.
    pub fn try_down(&mut self) -> (taken: bool)
        requires
            old(self).wf(),
        ensures
            final(self).wf(),
            taken == spec_down_succeeds(old(self)@),
            final(self)@ == spec_try_down(old(self)@),
    {
        if self.count > 0 {
            self.count = self.count - 1;
            true
        } else {
            false
        }
    }
}

/// One call on a semaphore, as it appears in a history of calls.
pub enum SemOp {
    /// A post.
    Post,
    /// An attempt of a waiter to take a permit.
    Wait,
}

/// The count after the calls of `ops` have been applied, in order, to a
/// semaphore that started with `initial` permits.
pub open spec fn count_after(initial: int, ops: Seq<SemOp>) -> int
    decreases ops.len(),
{
    if ops.len() == 0 {
        initial
    } else {
        let before = count_after(initial, ops.drop_last());
        match ops.last() {
            SemOp::Post => spec_up(before),
            SemOp::Wait => spec_try_down(before),
        }
    }
}

/// How many posts `ops` holds.
pub open spec fn posts(ops: Seq<SemOp>) -> int
    decreases ops.len(),
{
    if ops.len() == 0 {
        0
    } else {
        posts(ops.drop_last()) + if ops.last() is Post {
            1int
        } else {
            0int
        }
    }
}

/// How many waits of `ops` completed, that is, found a permit and took it.
pub open spec fn completed_waits(initial: int, ops: Seq<SemOp>) -> int
    decreases ops.len(),
{
    if ops.len() == 0 {
        0
    } else {
        let before = count_after(initial, ops.drop_last());
        completed_waits(initial, ops.drop_last()) + if ops.last() is Wait && spec_down_succeeds(
            before,
        ) {
            1int
        } else {
            0int
        }
    }
}

/// Permits are conserved. For a semaphore that starts with `initial >= 0`
/// permits, after any history of calls the count is the initial count plus
/// the posts minus the completed waits, and it is not negative: no permit is
/// taken twice, and no more waits complete than there were permits. As this
/// holds of every history, it holds after every call of one.
pub proof fn law_permits_conserved(initial: int, ops: Seq<SemOp>)
    requires
        initial >= 0,
    ensures
        count_after(initial, ops) == initial + posts(ops) - completed_waits(initial, ops),
        count_after(initial, ops) >= 0,
        0 <= completed_waits(initial, ops) <= initial + posts(ops),
    decreases ops.len(),
{
    if ops.len() > 0 {
        law_permits_conserved(initial, ops.drop_last());
    }
}

} // verus!
