//! Interval timers: the registry of timers and the decisions of each timer's
//! background task.
//!
//! A timer is unarmed (its deadline is 0), armed (it has a deadline), or
//! exited. Its background task asks [`TimerRegistry::task_step`] what to do
//! next, does it, and asks again: sleep until woken, sleep towards the
//! deadline, run the callback, or end. Arming wakes the task, so that it
//! looks at the new deadline instead of sleeping out the old one.

use crate::error::PosixError;
use std::collections::BTreeMap;
use vstd::prelude::*;

verus! {

broadcast use vstd::std_specs::btree::group_btree_axioms;

/// The only clock that timers can be created on.
pub const CLOCK_REALTIME: i32 = 0;

/// The only notification that timers can deliver: the callback runs on a
/// thread of its own.
pub const SIGEV_THREAD: i32 = 2;

/// Nanoseconds in a second.
pub const NANOS_PER_SEC: u64 = 1_000_000_000;

/// A time in seconds and nanoseconds.
#[derive(Clone, Copy, Debug, PartialEq, Eq, Structural)]
pub struct TimeSpec {
    pub tv_sec: i64,
    pub tv_nsec: i64,
}

/// What a timer is armed with: the time until it first expires, and the
/// period after that.
#[derive(Clone, Copy, Debug, PartialEq, Eq, Structural)]
pub struct ITimerSpec {
    pub it_interval: TimeSpec,
    pub it_value: TimeSpec,
}

/// What a timer runs when it expires: the address of the function and the
/// word that it is called with.
#[derive(Clone, Copy, Debug, PartialEq, Eq, Structural)]
pub struct TimerCallback {
    pub callback: usize,
    pub argument: usize,
}

/// One timer. `W` is the wait queue that its background task sleeps on and
/// `T` the kernel's handle of that task; the registry stores both and never
/// looks inside.
pub struct SigTimer<W, T> {
    pub callback: TimerCallback,
    pub clk: i32,
    /// Set when the timer is being deleted; the background task ends when it
    /// sees it.
    pub exited: bool,
    /// When the timer expires next, in nanoseconds of the wall clock; 0 when
    /// the timer is unarmed.
    pub deadline: u64,
    /// The period in nanoseconds; 0 for a timer that expires once.
    pub interval: u64,
    pub wq: W,
    pub task: T,
}

/// What a timer's background task does next.
#[derive(Clone, Copy, Debug, PartialEq, Eq, Structural)]
pub enum TimerAction {
    /// End the task: the timer is being deleted.
    Exit,
    /// Sleep on the timer's wait queue until woken: there is no deadline.
    WaitForWake,
    /// Sleep on the timer's wait queue for so many nanoseconds, or until
    /// woken.
    Sleep(u64),
    /// Run the callback on a thread of its own and wait for it to finish.
    Fire(TimerCallback),
}

/// The time in nanoseconds, as a mathematical integer.
pub open spec fn spec_to_nanos(ts: TimeSpec) -> int {
    ts.tv_nsec + ts.tv_sec * 1_000_000_000
}

/// Whether the time is a count of nanoseconds that the timer can store:
/// neither field negative, and the total within 64 bits.
pub open spec fn representable(ts: TimeSpec) -> bool {
    ts.tv_sec >= 0 && ts.tv_nsec >= 0 && spec_to_nanos(ts) <= u64::MAX
}

/// The time in nanoseconds, if it is representable.
pub fn to_nanos(ts: TimeSpec) -> (nanos: Option<u64>)
    ensures
        nanos is Some <==> representable(ts),
        nanos matches Some(n) ==> n == spec_to_nanos(ts),
{
    if ts.tv_sec < 0 || ts.tv_nsec < 0 {
        return None;
    }
    let total: u128 = ts.tv_nsec as u128 + ts.tv_sec as u128 * (NANOS_PER_SEC as u128);
    if total > u64::MAX as u128 {
        None
    } else {
        Some(total as u64)
    }
}

/// Whether timers can be created on clock `clk` with notification `notify`.
pub open spec fn supported(clk: i32, notify: i32) -> bool {
    clk == CLOCK_REALTIME && notify == SIGEV_THREAD
}

/// A freshly created timer: unarmed and not exited.
pub open spec fn fresh_timer<W, T>(callback: TimerCallback, clk: i32, wq: W, task: T) -> SigTimer<
    W,
    T,
> {
    SigTimer { callback, clk, exited: false, deadline: 0, interval: 0, wq, task }
}

/// The deadline that a request to arm a timer at time `now` asks for, if the
/// request is accepted. It is refused if `flags` is not 0, if the previous
/// setting is asked for, if there is no new setting, if the new setting has
/// a period, or if its expiry time cannot be stored: a negative field, or a
/// deadline beyond 64 bits of nanoseconds.
pub open spec fn requested_deadline(
    flags: i32,
    new_value: Option<ITimerSpec>,
    old_value_requested: bool,
    now: u64,
) -> Option<u64> {
    match new_value {
        Some(spec) if flags == 0 && !old_value_requested => {
            if spec.it_interval.tv_sec != 0 || spec.it_interval.tv_nsec != 0 {
                None
            } else if !representable(spec.it_value) || now + spec_to_nanos(spec.it_value)
                > u64::MAX {
                None
            } else {
                Some((now + spec_to_nanos(spec.it_value)) as u64)
            }
        },
        _ => None,
    }
}

/// The timers after timer `id`, which exists, has been armed to expire once
/// at `deadline`.
pub open spec fn spec_arm<W, T>(timers: Map<usize, SigTimer<W, T>>, id: usize, deadline: u64) -> Map<
    usize,
    SigTimer<W, T>,
> {
    timers.insert(id, SigTimer { deadline, interval: 0, ..timers[id] })
}

/// The timers after the deletion of timer `id` has begun: the timer is
/// unarmed and marked as exited. Nothing changes if there is no such timer.
pub open spec fn spec_begin_delete<W, T>(timers: Map<usize, SigTimer<W, T>>, id: usize) -> Map<
    usize,
    SigTimer<W, T>,
> {
    if timers.contains_key(id) {
        timers.insert(id, SigTimer { exited: true, deadline: 0, ..timers[id] })
    } else {
        timers
    }
}

/// What the background task of timer `id` does at time `now`.
///
/// It ends once the timer is marked as exited. While the timer is unarmed,
/// or not registered yet, it sleeps until woken. While the deadline lies
/// ahead it sleeps for the time that remains. Once the deadline has come it
/// runs the callback.
pub open spec fn spec_step_action<W, T>(timers: Map<usize, SigTimer<W, T>>, id: usize, now: u64)
    -> TimerAction {
    if !timers.contains_key(id) {
        TimerAction::WaitForWake
    } else if timers[id].exited {
        TimerAction::Exit
    } else if timers[id].deadline == 0 {
        TimerAction::WaitForWake
    } else if now < timers[id].deadline {
        TimerAction::Sleep((timers[id].deadline - now) as u64)
    } else {
        TimerAction::Fire(timers[id].callback)
    }
}

/// The timers after the background task of timer `id` has decided what to do
/// at time `now`: a timer that fires is unarmed in the same step, so that it
/// fires once; nothing else changes.
pub open spec fn spec_step_timers<W, T>(timers: Map<usize, SigTimer<W, T>>, id: usize, now: u64)
    -> Map<usize, SigTimer<W, T>> {
    if spec_step_action(timers, id, now) is Fire {
        timers.insert(id, SigTimer { deadline: 0, ..timers[id] })
    } else {
        timers
    }
}

/// The timers of a process, by identity.
pub struct TimerRegistry<W, T> {
    timers: BTreeMap<usize, SigTimer<W, T>>,
    next_id: usize,
}

impl<W, T> View for TimerRegistry<W, T> {
    type V = Map<usize, SigTimer<W, T>>;

    closed spec fn view(&self) -> Map<usize, SigTimer<W, T>> {
        self.timers@
    }
}

impl<W, T> TimerRegistry<W, T> {
    /// The identity that the next timer will get.
    pub closed spec fn spec_next_id(&self) -> usize {
        self.next_id
    }

    /// The registry's invariant: identities start at 1, and every timer has
    /// an identity that was handed out before.
    pub closed spec fn wf(&self) -> bool {
        &&& self.next_id >= 1
        &&& forall|id: usize| #[trigger] self.timers@.contains_key(id) ==> 1 <= id < self.next_id
    }

    /// A registry without timers. The first identity is 1.
    pub fn new() -> (registry: Self)
        ensures
            registry.wf(),
            registry@ == Map::<usize, SigTimer<W, T>>::empty(),
            registry.spec_next_id() == 1,
    {
        TimerRegistry { timers: BTreeMap::new(), next_id: 1 }
    }

    /// The identity that the next timer will get.
    pub fn next_id(&self) -> (id: usize)
        ensures
            id == self.spec_next_id(),
    {
        self.next_id
    }

    /// The first step of creating a timer: refuses a clock or a notification
    /// that is not supported, and otherwise hands out the timer's identity.
    /// Identities are handed out in increasing order, so no two timers share
    /// one. The timers themselves do not change.
    pub fn allocate(&mut self, clk: i32, notify: i32) -> (outcome: Result<usize, PosixError>)
        requires
            old(self).wf(),
            old(self).spec_next_id() < usize::MAX,
        ensures
            final(self).wf(),
            final(self)@ == old(self)@,
            match outcome {
                Ok(id) => {
                    &&& supported(clk, notify)
                    &&& id == old(self).spec_next_id()
                    &&& final(self).spec_next_id() == id + 1
                    &&& !old(self)@.contains_key(id)
                },
                Err(e) => {
                    &&& !supported(clk, notify)
                    &&& e == PosixError::InvalidArgument
                    &&& final(self).spec_next_id() == old(self).spec_next_id()
                },
            },
    {
        if clk != CLOCK_REALTIME || notify != SIGEV_THREAD {
            return Err(PosixError::InvalidArgument);
        }
        let id = self.next_id;
        self.next_id = id + 1;
        Ok(id)
    }

    /// The last step of creating a timer: files the timer under the identity
    /// `id` that was handed out for it, unarmed, with the wait queue and the
    /// background task that the caller has made for it.
    pub fn register(&mut self, id: usize, callback: TimerCallback, clk: i32, wq: W, task: T)
        requires
            old(self).wf(),
            1 <= id < old(self).spec_next_id(),
        ensures
            final(self).wf(),
            final(self).spec_next_id() == old(self).spec_next_id(),
            final(self)@ == old(self)@.insert(id, fresh_timer(callback, clk, wq, task)),
    {
        let timer = SigTimer { callback, clk, exited: false, deadline: 0, interval: 0, wq, task };
        self.timers.insert(id, timer);
    }

    /// The timer filed under `id`, if there is one.
    pub fn get(&self, id: usize) -> (found: Option<&SigTimer<W, T>>)
        requires
            self.wf(),
        ensures
            found is Some <==> self@.contains_key(id),
            found matches Some(timer) ==> *timer == self@[id],
    {
        self.timers.get(&id)
    }

    /// Arms timer `timer` at time `now` to expire once, after the time in
    /// `new_value`. The caller then wakes the timer's background task.
    ///
    /// The request is refused as an invalid argument, and nothing changes, if
    /// it is not well-formed (see [`requested_deadline`]) or if there is no
    /// such timer.
    pub fn settime(
        &mut self,
        timer: usize,
        flags: i32,
        new_value: Option<ITimerSpec>,
        old_value_requested: bool,
        now: u64,
    ) -> (outcome: Result<(), PosixError>)
        requires
            old(self).wf(),
        ensures
            final(self).wf(),
            final(self).spec_next_id() == old(self).spec_next_id(),
            match outcome {
                Ok(_) => {
                    &&& old(self)@.contains_key(timer)
                    &&& requested_deadline(flags, new_value, old_value_requested, now) matches Some(
                        deadline,
                    )
                    &&& final(self)@ == spec_arm(old(self)@, timer, deadline)
                },
                Err(e) => {
                    &&& e == PosixError::InvalidArgument
                    &&& !old(self)@.contains_key(timer) || requested_deadline(
                        flags,
                        new_value,
                        old_value_requested,
                        now,
                    ) is None
                    &&& final(self)@ == old(self)@
                },
            },
            new_value matches Some(spec) && (spec.it_interval.tv_sec != 0
                || spec.it_interval.tv_nsec != 0) ==> outcome is Err && final(self)@ == old(self)@,
    {
        if flags != 0 || old_value_requested {
            return Err(PosixError::InvalidArgument);
        }
        let spec = match new_value {
            None => {
                return Err(PosixError::InvalidArgument);
            },
            Some(spec) => spec,
        };
        if self.timers.get(&timer).is_none() {
            return Err(PosixError::InvalidArgument);
        }
        if spec.it_interval.tv_sec != 0 || spec.it_interval.tv_nsec != 0 {
            return Err(PosixError::InvalidArgument);
        }
        let deadline = match to_nanos(spec.it_value) {
            None => {
                return Err(PosixError::InvalidArgument);
            },
            Some(nanos) => match now.checked_add(nanos) {
                None => {
                    return Err(PosixError::InvalidArgument);
                },
                Some(deadline) => deadline,
            },
        };
        match self.timers.remove(&timer) {
            Some(record) => {
                self.timers.insert(timer, SigTimer { deadline, interval: 0, ..record });
            },
            None => {},
        }
        Ok(())
    }

    /// Decides what the background task of timer `id` does at time `now`
    /// (see [`spec_step_action`]). A timer that fires is unarmed in the same
    /// step.
    pub fn task_step(&mut self, id: usize, now: u64) -> (action: TimerAction)
        requires
            old(self).wf(),
        ensures
            final(self).wf(),
            final(self).spec_next_id() == old(self).spec_next_id(),
            action == spec_step_action(old(self)@, id, now),
            final(self)@ == spec_step_timers(old(self)@, id, now),
    {
        let (exited, deadline, callback) = match self.timers.get(&id) {
            None => {
                return TimerAction::WaitForWake;
            },
            Some(timer) => (timer.exited, timer.deadline, timer.callback),
        };
        if exited {
            TimerAction::Exit
        } else if deadline == 0 {
            TimerAction::WaitForWake
        } else if now < deadline {
            TimerAction::Sleep(deadline - now)
        } else {
            match self.timers.remove(&id) {
                Some(record) => {
                    self.timers.insert(id, SigTimer { deadline: 0, ..record });
                },
                None => {},
            }
            TimerAction::Fire(callback)
        }
    }

    /// The first step of deleting timer `timer`: unarms it and marks it as
    /// exited, and says whether there is such a timer. If there is, the
    /// caller wakes its background task and waits for it to end before it
    /// removes the timer with [`TimerRegistry::finish_delete`]. If there is
    /// none, nothing changes.
    pub fn begin_delete(&mut self, timer: usize) -> (found: bool)
        requires
            old(self).wf(),
        ensures
            final(self).wf(),
            final(self).spec_next_id() == old(self).spec_next_id(),
            found == old(self)@.contains_key(timer),
            final(self)@ == spec_begin_delete(old(self)@, timer),
            !old(self)@.contains_key(timer) ==> final(self)@ == old(self)@,
    {
        match self.timers.remove(&timer) {
            Some(record) => {
                self.timers.insert(timer, SigTimer { exited: true, deadline: 0, ..record });
                true
            },
            None => {
                assert(self.timers@ =~= old(self)@);
                false
            },
        }
    }

    /// The last step of deleting timer `timer`: removes it and hands it
    /// out. If there is no such timer, nothing changes.
    pub fn finish_delete(&mut self, timer: usize) -> (removed: Option<SigTimer<W, T>>)
        requires
            old(self).wf(),
        ensures
            final(self).wf(),
            final(self).spec_next_id() == old(self).spec_next_id(),
            final(self)@ == old(self)@.remove(timer),
            removed == (if old(self)@.contains_key(timer) {
                Some(old(self)@[timer])
            } else {
                None
            }),
            !old(self)@.contains_key(timer) ==> final(self)@ == old(self)@,
    {
        let removed = self.timers.remove(&timer);
        assert(!old(self)@.contains_key(timer) ==> self.timers@ =~= old(self)@);
        removed
    }
}

/// How often the background task of timer `id` runs the callback if it
/// takes one step at each of `times`, in order, and nobody else touches the
/// timer meanwhile.
pub open spec fn fire_count<W, T>(timers: Map<usize, SigTimer<W, T>>, id: usize, times: Seq<u64>)
    -> int
    decreases times.len(),
{
    if times.len() == 0 {
        0
    } else {
        let fired: int = if spec_step_action(timers, id, times[0]) is Fire {
            1
        } else {
            0
        };
        fired + fire_count(spec_step_timers(timers, id, times[0]), id, times.drop_first())
    }
}

/// Whether one of `times` is at or after `deadline`.
pub open spec fn reaches(times: Seq<u64>, deadline: u64) -> bool {
    exists|i: int| 0 <= i < times.len() && #[trigger] times[i] >= deadline
}

/// A timer that is not registered, is unarmed or has exited never fires.
pub proof fn law_idle_timer_never_fires<W, T>(
    timers: Map<usize, SigTimer<W, T>>,
    id: usize,
    times: Seq<u64>,
)
    requires
        !timers.contains_key(id) || timers[id].exited || timers[id].deadline == 0,
    ensures
        fire_count(timers, id, times) == 0,
    decreases times.len(),
{
    if times.len() > 0 {
        law_idle_timer_never_fires(timers, id, times.drop_first());
    }
}

/// An armed timer fires once, and not before its deadline: however often and
/// whenever its background task looks at it, the callback runs exactly once
/// if one of those looks falls at or after the deadline, and not at all
/// otherwise.
pub proof fn law_armed_timer_fires_once<W, T>(
    timers: Map<usize, SigTimer<W, T>>,
    id: usize,
    times: Seq<u64>,
)
    requires
        timers.contains_key(id),
        !timers[id].exited,
        timers[id].deadline != 0,
    ensures
        fire_count(timers, id, times) == (if reaches(times, timers[id].deadline) {
            1int
        } else {
            0int
        }),
    decreases times.len(),
{
    let deadline = timers[id].deadline;
    if times.len() > 0 {
        let rest = times.drop_first();
        if times[0] >= deadline {
            law_idle_timer_never_fires(spec_step_timers(timers, id, times[0]), id, rest);
        } else {
            law_armed_timer_fires_once(timers, id, rest);
            if reaches(rest, deadline) {
                let i = choose|i: int| 0 <= i < rest.len() && #[trigger] rest[i] >= deadline;
                assert(times[i + 1] >= deadline);
            }
            if reaches(times, deadline) {
                let i = choose|i: int| 0 <= i < times.len() && #[trigger] times[i] >= deadline;
                assert(rest[i - 1] >= deadline);
            }
        }
    }
}

/// A timer armed at time `now` with a relative time fires exactly once if
/// its background task looks at it at or after `now` plus that time, and
/// never before.
pub proof fn law_settime_fires_once<W, T>(
    timers: Map<usize, SigTimer<W, T>>,
    id: usize,
    value: TimeSpec,
    now: u64,
    times: Seq<u64>,
)
    requires
        timers.contains_key(id),
        !timers[id].exited,
        representable(value),
        0 < now + spec_to_nanos(value) <= u64::MAX,
    ensures
        ({
            let request = Some(ITimerSpec { it_interval: TimeSpec { tv_sec: 0, tv_nsec: 0 }, it_value: value });
            let deadline = (now + spec_to_nanos(value)) as u64;
            &&& requested_deadline(0, request, false, now) == Some(deadline)
            &&& fire_count(spec_arm(timers, id, deadline), id, times) == (if reaches(
                times,
                deadline,
            ) {
                1int
            } else {
                0int
            })
        }),
{
    let deadline = (now + spec_to_nanos(value)) as u64;
    law_armed_timer_fires_once(spec_arm(timers, id, deadline), id, times);
}

/// Once the deletion of a timer has begun, its background task ends at its
/// next step, whenever that is, and the callback never runs again.
pub proof fn law_deleted_timer_never_fires<W, T>(
    timers: Map<usize, SigTimer<W, T>>,
    id: usize,
    times: Seq<u64>,
)
    ensures
        fire_count(spec_begin_delete(timers, id), id, times) == 0,
        timers.contains_key(id) ==> forall|now: u64|
            #[trigger] spec_step_action(spec_begin_delete(timers, id), id, now)
                == TimerAction::Exit,
{
    law_idle_timer_never_fires(spec_begin_delete(timers, id), id, times);
}

/// Whether two registries say the same of timer `id`: registered in both
/// with the same state, or in neither.
pub open spec fn same_timer<W, T>(
    before: Map<usize, SigTimer<W, T>>,
    after: Map<usize, SigTimer<W, T>>,
    id: usize,
) -> bool {
    &&& before.contains_key(id) == after.contains_key(id)
    &&& before.contains_key(id) ==> before[id] == after[id]
}

/// Timers do not disturb each other: arming another timer, a step of its
/// background task, and its deletion leave timer `id` as it is.
pub proof fn law_other_timers_keep_timer<W, T>(
    timers: Map<usize, SigTimer<W, T>>,
    id: usize,
    other: usize,
    deadline: u64,
    now: u64,
)
    requires
        other != id,
    ensures
        same_timer(timers, spec_arm(timers, other, deadline), id),
        same_timer(timers, spec_step_timers(timers, other, now), id),
        same_timer(timers, spec_begin_delete(timers, other), id),
        same_timer(timers, timers.remove(other), id),
{
}

} // verus!
