//! The thread registry: which threads exist, and the value each one leaves
//! for its joiner.

use crate::error::PosixError;
use std::collections::BTreeMap;
use vstd::prelude::*;

verus! {

broadcast use vstd::std_specs::btree::group_btree_axioms;

/// One thread as the registry knows it. `T` is the kernel's handle of the
/// task that runs the thread; the registry stores it and never looks inside.
pub struct Pthread<T> {
    /// The identity of the thread, which is that of its task.
    pub tid: u64,
    /// The kernel's handle of the task.
    pub inner: T,
    /// The value the thread has left for its joiner; null (0) until it
    /// leaves one.
    pub retval: usize,
}

impl<T> Pthread<T> {
    /// The record of a thread that has not left a value yet.
    pub fn new(tid: u64, inner: T) -> (thread: Self)
        ensures
            thread == (Pthread { tid, inner, retval: 0 }),
    {
        Pthread { tid, inner, retval: 0 }
    }
}

/// The threads that can be looked up, exited from and joined, by identity.
pub struct ThreadRegistry<T> {
    threads: BTreeMap<u64, Pthread<T>>,
}

impl<T> View for ThreadRegistry<T> {
    type V = Map<u64, Pthread<T>>;

    closed spec fn view(&self) -> Map<u64, Pthread<T>> {
        self.threads@
    }
}

/// The registry after a thread with identity `tid` and task `task` has been
/// created: a fresh record under `tid`, with no value left yet.
pub open spec fn spec_create<T>(threads: Map<u64, Pthread<T>>, tid: u64, task: T) -> Map<
    u64,
    Pthread<T>,
> {
    threads.insert(tid, Pthread { tid, inner: task, retval: 0 })
}

/// The registry after the registered thread `caller` has left `retval` for
/// its joiner: only that thread's value changes.
pub open spec fn spec_exit<T>(threads: Map<u64, Pthread<T>>, caller: u64, retval: usize) -> Map<
    u64,
    Pthread<T>,
> {
    threads.insert(caller, Pthread { tid: caller, inner: threads[caller].inner, retval })
}

/// Why `caller` may not join `tid`, if it may not: a thread cannot join
/// itself, and a thread that is not registered cannot be joined. The first
/// test comes first.
pub open spec fn join_refusal<T>(threads: Map<u64, Pthread<T>>, caller: u64, tid: u64) -> Option<
    PosixError,
> {
    if tid == caller {
        Some(PosixError::WouldDeadlock)
    } else if !threads.contains_key(tid) {
        Some(PosixError::NoSuchThread)
    } else {
        None
    }
}

/// What `caller` receives on joining `tid`: the refusal, or the value that
/// the thread has left.
pub open spec fn spec_join_result<T>(threads: Map<u64, Pthread<T>>, caller: u64, tid: u64) -> Result<
    usize,
    PosixError,
> {
    match join_refusal(threads, caller, tid) {
        Some(e) => Err(e),
        None => Ok(threads[tid].retval),
    }
}

/// The registry after `caller` has joined `tid`: a refused join changes
/// nothing, a successful one removes the record.
pub open spec fn spec_join_registry<T>(threads: Map<u64, Pthread<T>>, caller: u64, tid: u64) -> Map<
    u64,
    Pthread<T>,
> {
    match join_refusal(threads, caller, tid) {
        Some(_) => threads,
        None => threads.remove(tid),
    }
}

impl<T> ThreadRegistry<T> {
    /// The registry's invariant: every record is filed under its own
    /// identity.
    pub closed spec fn wf(&self) -> bool {
        forall|tid: u64| #[trigger] self.threads@.contains_key(tid) ==> self.threads@[tid].tid == tid
    }

    /// A registry that holds the main thread alone.
    pub fn new(main_tid: u64, main_task: T) -> (registry: Self)
        ensures
            registry.wf(),
            registry@ == spec_create(Map::<u64, Pthread<T>>::empty(), main_tid, main_task),
    {
        let mut threads: BTreeMap<u64, Pthread<T>> = BTreeMap::new();
        threads.insert(main_tid, Pthread::new(main_tid, main_task));
        ThreadRegistry { threads }
    }

    /// Records the thread that runs on the freshly spawned task `task`, whose
    /// identity is `tid`, and returns that identity. A record already filed
    /// under `tid` is replaced.
    pub fn create(&mut self, tid: u64, task: T) -> (id: u64)
        requires
            old(self).wf(),
        ensures
            final(self).wf(),
            id == tid,
            final(self)@ == spec_create(old(self)@, tid, task),
    {
        self.threads.insert(tid, Pthread::new(tid, task));
        tid
    }

    /// The record of the calling thread, whose identity is `caller`.
    pub fn current(&self, caller: u64) -> (found: Option<&Pthread<T>>)
        requires
            self.wf(),
        ensures
            found is Some <==> self@.contains_key(caller),
            found matches Some(thread) ==> *thread == self@[caller] && thread.tid == caller,
    {
        self.pthread_ref(caller)
    }

    /// The record filed under `tid`, if there is one.
    pub fn pthread_ref(&self, tid: u64) -> (found: Option<&Pthread<T>>)
        requires
            self.wf(),
        ensures
            found is Some <==> self@.contains_key(tid),
            found matches Some(thread) ==> *thread == self@[tid] && thread.tid == tid,
    {
        self.threads.get(&tid)
    }

    /// Stores `retval` as the value that the calling thread leaves for its
    /// joiner. No other record changes. Terminating the task is left to the
    /// caller.
    pub fn exit_current(&mut self, caller: u64, retval: usize)
        requires
            old(self).wf(),
            old(self)@.contains_key(caller),
        ensures
            final(self).wf(),
            final(self)@ == spec_exit(old(self)@, caller, retval),
    {
        match self.threads.remove(&caller) {
            Some(thread) => {
                let updated = Pthread { tid: caller, inner: thread.inner, retval };
                self.threads.insert(caller, updated);
                assert(self.threads@ =~= spec_exit(old(self)@, caller, retval));
            },
            None => {},
        }
    }

    /// Decides whether `caller` may join `tid` and, if so, hands out the task
    /// whose termination the caller has to wait for before it collects the
    /// value with [`ThreadRegistry::join`].
    pub fn join_target(&self, caller: u64, tid: u64) -> (target: Result<&T, PosixError>)
        requires
            self.wf(),
        ensures
            match target {
                Ok(task) => join_refusal(self@, caller, tid) is None && *task == self@[tid].inner,
                Err(e) => join_refusal(self@, caller, tid) == Some(e),
            },
    {
        if tid == caller {
            return Err(PosixError::WouldDeadlock);
        }
        match self.pthread_ref(tid) {
            None => Err(PosixError::NoSuchThread),
            Some(thread) => Ok(&thread.inner),
        }
    }

    /// Joins `tid` on behalf of `caller`, once the task of `tid` has
    /// terminated: returns the value that the thread left and removes its
    /// record, so that it cannot be joined again. A thread cannot join
    /// itself, and a thread without a record cannot be joined; a refused join
    /// changes nothing.
    pub fn join(&mut self, caller: u64, tid: u64) -> (outcome: Result<usize, PosixError>)
        requires
            old(self).wf(),
        ensures
            final(self).wf(),
            outcome == spec_join_result(old(self)@, caller, tid),
            final(self)@ == spec_join_registry(old(self)@, caller, tid),
            tid == caller ==> outcome == Err::<usize, PosixError>(PosixError::WouldDeadlock)
                && final(self)@ == old(self)@,
            tid != caller && !old(self)@.contains_key(tid) ==> outcome == Err::<usize, PosixError>(
                PosixError::NoSuchThread,
            ) && final(self)@ == old(self)@,
    {
        if tid == caller {
            return Err(PosixError::WouldDeadlock);
        }
        match self.threads.remove(&tid) {
            None => {
                assert(self.threads@ =~= old(self)@);
                Err(PosixError::NoSuchThread)
            },
            Some(thread) => Ok(thread.retval),
        }
    }
}

/// The identity of the calling thread, read from its record.
pub fn sys_pthread_self<T>(registry: &ThreadRegistry<T>, caller: u64) -> (id: u64)
    requires
        registry.wf(),
        registry@.contains_key(caller),
    ensures
        id == caller,
        id == registry@[caller].tid,
{
    let thread = registry.current(caller);
    thread.unwrap().tid
}

/// Whether two thread identities name the same thread: 1 if so, 0 if not.
pub fn sys_pthread_equal(a: u64, b: u64) -> (same: i32)
    ensures
        same == (if a == b { 1i32 } else { 0i32 }),
{
    if a == b {
        1
    } else {
        0
    }
}

/// Detaching is accepted and does nothing: the thread stays registered and
/// can still be joined.
pub fn sys_pthread_detach(thread: u64) -> (status: i32)
    ensures
        status == 0,
{
    0
}

/// A thread that is created, leaves a value and is then joined by another
/// thread hands exactly that value to its joiner, and a second join of the
/// same thread finds no such thread.
pub proof fn law_join_returns_exit_value<T>(
    threads: Map<u64, Pthread<T>>,
    tid: u64,
    task: T,
    value: usize,
    joiner: u64,
)
    requires
        joiner != tid,
    ensures
        ({
            let created = spec_create(threads, tid, task);
            let exited = spec_exit(created, tid, value);
            let joined = spec_join_registry(exited, joiner, tid);
            &&& spec_join_result(exited, joiner, tid) == Ok::<usize, PosixError>(value)
            &&& !joined.contains_key(tid)
            &&& spec_join_result(joined, joiner, tid) == Err::<usize, PosixError>(
                PosixError::NoSuchThread,
            )
            &&& spec_join_registry(joined, joiner, tid) == joined
        }),
{
}

/// Whether two registries say the same of thread `tid`: registered in both
/// with the same record, or in neither.
pub open spec fn same_record<T>(
    before: Map<u64, Pthread<T>>,
    after: Map<u64, Pthread<T>>,
    tid: u64,
) -> bool {
    &&& before.contains_key(tid) == after.contains_key(tid)
    &&& before.contains_key(tid) ==> before[tid] == after[tid]
}

/// What happens to other threads leaves a thread's record alone: creating,
/// exiting or joining a thread other than `tid` changes neither whether
/// `tid` is registered nor the value that it has left.
pub proof fn law_other_threads_keep_record<T>(
    threads: Map<u64, Pthread<T>>,
    tid: u64,
    other: u64,
    task: T,
    value: usize,
    joiner: u64,
)
    requires
        other != tid,
    ensures
        same_record(threads, spec_create(threads, other, task), tid),
        same_record(threads, spec_exit(threads, other, value), tid),
        same_record(threads, spec_join_registry(threads, joiner, other), tid),
{
}

} // verus!
