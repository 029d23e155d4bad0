//! The cooperative scheduler: a fixed set of tasks registered before the
//! run loop starts, each either runnable or suspended on a timer deadline
//! or an external event. The scheduler alone reprograms the single
//! hardware alarm channel, always to the minimum outstanding deadline
//! across all timer-suspended tasks.
//!
//! Registering more tasks than the fixed capacity is a configuration
//! error, detected at startup, never a runtime condition.

use vstd::prelude::*;
use crate::timer::TimerDriver;
use crate::timer::deadline_reached;
use crate::timer::is_reached;

verus! {

/// What a task is doing: running this pass, or suspended and on what.
#[derive(Clone, Copy, PartialEq, Eq, Structural, Debug)]
pub enum TaskStatus {
    /// Will be resumed on the next scheduler pass.
    Runnable,
    /// Suspended until the given tick deadline.
    TimerWait(u64),
    /// Suspended until an external radio or protocol event resolves it.
    EventWait,
}

/// Startup misconfiguration: fatal by design.
#[derive(Clone, Copy, PartialEq, Eq, Structural, Debug)]
pub enum ConfigError {
    /// More tasks were registered than the scheduler's fixed capacity.
    CapacityExceeded,
}

/// The deadline a task is suspended on, if any.
pub open spec fn status_deadline(t: TaskStatus) -> Option<u64> {
    match t {
        TaskStatus::TimerWait(d) => Some(d),
        _ => None,
    }
}

/// The minimum outstanding deadline across a task list: `None` when no
/// task is timer-suspended.
pub open spec fn min_deadline_of(s: Seq<TaskStatus>) -> Option<u64>
    decreases s.len(),
{
    if s.len() == 0 {
        None
    } else {
        match (min_deadline_of(s.drop_last()), status_deadline(s.last())) {
            (Some(a), Some(b)) => if a <= b {
                Some(a)
            } else {
                Some(b)
            },
            (Some(a), None) => Some(a),
            (None, d) => d,
        }
    }
}

/// The minimum outstanding deadline is itself an outstanding deadline and
/// is no later than any other; it is absent exactly when no task is
/// timer-suspended.
pub proof fn lemma_min_deadline_correct(s: Seq<TaskStatus>)
    ensures
        min_deadline_of(s) matches Some(d) ==> exists|i: int|
            0 <= i < s.len() && status_deadline(s[i]) == Some(d),
        forall|i: int|
            0 <= i < s.len() && s[i] is TimerWait ==> (min_deadline_of(s) matches Some(d)
                && d <= s[i]->TimerWait_0),
        min_deadline_of(s) is None ==> forall|i: int| 0 <= i < s.len() ==> !(s[i] is TimerWait),
    decreases s.len(),
{
    if s.len() > 0 {
        lemma_min_deadline_correct(s.drop_last());
        assert(s.last() == s[s.len() - 1]);
        assert(forall|i: int| 0 <= i < s.len() - 1 ==> s.drop_last()[i] == s[i]);
    }
}

/// The scheduler: its task table and the fixed capacity the table may not
/// outgrow.
pub struct Scheduler {
    tasks: Vec<TaskStatus>,
    capacity: usize,
}

impl Scheduler {
    /// The task table.
    pub closed spec fn spec_tasks(self) -> Seq<TaskStatus> {
        self.tasks@
    }

    /// The fixed capacity.
    pub closed spec fn spec_capacity(self) -> usize {
        self.capacity
    }

    /// The table never outgrows the capacity.
    pub open spec fn wf(self) -> bool {
        self.spec_tasks().len() <= self.spec_capacity()
    }

    /// An empty scheduler with the given fixed capacity.
    pub fn new(capacity: usize) -> (r: Scheduler)
        ensures
            r.spec_tasks() =~= Seq::<TaskStatus>::empty(),
            r.spec_capacity() == capacity,
            r.wf(),
    {
        Scheduler { tasks: Vec::new(), capacity }
    }

    /// How many tasks are registered.
    pub fn task_count(&self) -> (r: usize)
        ensures
            r == self.spec_tasks().len(),
    {
        self.tasks.len()
    }

    /// The status of task `i`.
    pub fn status(&self, i: usize) -> (r: TaskStatus)
        requires
            i < self.spec_tasks().len(),
        ensures
            r == self.spec_tasks()[i as int],
    {
        self.tasks[i]
    }

    /// Registers one task, initially runnable, and returns its index.
    /// Fails exactly when the fixed capacity is already reached — a fatal
    /// configuration error for the caller to act on at startup.
    pub fn spawn(&mut self) -> (r: Result<usize, ConfigError>)
        requires
            old(self).wf(),
        ensures
            final(self).wf(),
            final(self).spec_capacity() == old(self).spec_capacity(),
            r is Ok <==> old(self).spec_tasks().len() < old(self).spec_capacity(),
            r matches Ok(i) ==> i == old(self).spec_tasks().len() && final(self).spec_tasks()
                =~= old(self).spec_tasks().push(TaskStatus::Runnable),
            r is Err ==> r == Err::<usize, ConfigError>(ConfigError::CapacityExceeded)
                && final(self).spec_tasks() == old(self).spec_tasks(),
    {
        if self.tasks.len() < self.capacity {
            let i = self.tasks.len();
            self.tasks.push(TaskStatus::Runnable);
            Ok(i)
        } else {
            Err(ConfigError::CapacityExceeded)
        }
    }

    /// Suspends task `i` until the given tick deadline.
    pub fn suspend_on_timer(&mut self, i: usize, deadline: u64)
        requires
            i < old(self).spec_tasks().len(),
        ensures
            final(self).spec_tasks() =~= old(self).spec_tasks().update(
                i as int,
                TaskStatus::TimerWait(deadline),
            ),
            final(self).spec_capacity() == old(self).spec_capacity(),
    {
        self.tasks.set(i, TaskStatus::TimerWait(deadline));
    }

    /// Suspends task `i` until an external event resolves it.
    pub fn suspend_on_event(&mut self, i: usize)
        requires
            i < old(self).spec_tasks().len(),
        ensures
            final(self).spec_tasks() =~= old(self).spec_tasks().update(
                i as int,
                TaskStatus::EventWait,
            ),
            final(self).spec_capacity() == old(self).spec_capacity(),
    {
        self.tasks.set(i, TaskStatus::EventWait);
    }

    /// Marks task `i` runnable: an external event resolved its wait, or a
    /// race winner hands it back. Abandoning a timer wait this way drops
    /// the task's deadline, so the next alarm reprogramming no longer sees
    /// it.
    pub fn make_runnable(&mut self, i: usize)
        requires
            i < old(self).spec_tasks().len(),
        ensures
            final(self).spec_tasks() =~= old(self).spec_tasks().update(
                i as int,
                TaskStatus::Runnable,
            ),
            final(self).spec_capacity() == old(self).spec_capacity(),
    {
        self.tasks.set(i, TaskStatus::Runnable);
    }

    /// The minimum outstanding deadline across all timer-suspended tasks.
    pub fn min_deadline(&self) -> (r: Option<u64>)
        ensures
            r == min_deadline_of(self.spec_tasks()),
    {
        let mut acc: Option<u64> = None;
        let mut i: usize = 0;
        while i < self.tasks.len()
            invariant
                i <= self.spec_tasks().len(),
                acc == min_deadline_of(self.spec_tasks().take(i as int)),
            decreases self.spec_tasks().len() - i,
        {
            assert(self.spec_tasks().take(i + 1).drop_last() =~= self.spec_tasks().take(i as int));
            assert(self.spec_tasks().take(i + 1).last() == self.spec_tasks()[i as int]);
            acc = match (acc, self.tasks[i]) {
                (Some(a), TaskStatus::TimerWait(b)) => if a <= b {
                    Some(a)
                } else {
                    Some(b)
                },
                (None, TaskStatus::TimerWait(b)) => Some(b),
                (prev, _) => prev,
            };
            i = i + 1;
        }
        assert(self.spec_tasks().take(self.spec_tasks().len() as int) =~= self.spec_tasks());
        acc
    }

    /// Reprograms the single hardware alarm channel to the minimum
    /// outstanding deadline, or clears it when no task is timer-suspended.
    /// The scheduler owns this channel: nothing else arms it, so at most
    /// one alarm is ever outstanding.
    pub fn reprogram_alarm(&self, timer: &mut TimerDriver)
        ensures
            final(timer).spec_armed() == min_deadline_of(self.spec_tasks()),
            final(timer).spec_now() == old(timer).spec_now(),
    {
        match self.min_deadline() {
            Some(d) => timer.arm(d),
            None => timer.disarm(),
        }
    }

    /// The status a task takes when the alarm interrupt arrives at tick
    /// `now`: a timer-suspended task whose deadline is reached becomes
    /// runnable; every other task is untouched.
    pub open spec fn woken(t: TaskStatus, now: u64) -> TaskStatus {
        match t {
            TaskStatus::TimerWait(d) => if deadline_reached(now, d) {
                TaskStatus::Runnable
            } else {
                t
            },
            _ => t,
        }
    }

    /// On the alarm interrupt at tick `now`, marks runnable exactly the
    /// timer-suspended tasks whose deadline is reached; the driver decides
    /// nothing about what those tasks do next.
    pub fn wake_due(&mut self, now: u64)
        ensures
            final(self).spec_tasks().len() == old(self).spec_tasks().len(),
            forall|j: int|
                0 <= j < old(self).spec_tasks().len() ==> final(self).spec_tasks()[j]
                    == Scheduler::woken(old(self).spec_tasks()[j], now),
            final(self).spec_capacity() == old(self).spec_capacity(),
    {
        let mut i: usize = 0;
        while i < self.tasks.len()
            invariant
                i <= self.spec_tasks().len(),
                self.spec_tasks().len() == old(self).spec_tasks().len(),
                self.spec_capacity() == old(self).spec_capacity(),
                forall|j: int|
                    0 <= j < i ==> self.spec_tasks()[j] == Scheduler::woken(
                        old(self).spec_tasks()[j],
                        now,
                    ),
                forall|j: int|
                    i <= j < self.spec_tasks().len() ==> self.spec_tasks()[j] == old(
                        self,
                    ).spec_tasks()[j],
            decreases self.spec_tasks().len() - i,
    {
            match self.tasks[i] {
                TaskStatus::TimerWait(d) => {
                    if is_reached(now, d) {
                        self.tasks.set(i, TaskStatus::Runnable);
                    }
                },
                _ => (),
            }
            i = i + 1;
        }
    }

    /// The indices of the runnable tasks, in registration order: the order
    /// in which one scheduler pass resumes each of them exactly once. This
    /// ordering is the fairness policy of the run loop, not a correctness
    /// requirement — tasks here never run without suspending again.
    pub fn runnable_in_order(&self) -> (r: Vec<usize>)
        ensures
            forall|k: int|
                0 <= k < r@.len() ==> r@[k] < self.spec_tasks().len() && self.spec_tasks()[r@[k] as int]
                    is Runnable,
            forall|j: int|
                0 <= j < self.spec_tasks().len() && self.spec_tasks()[j] is Runnable
                    ==> exists|k: int| 0 <= k < r@.len() && r@[k] == j,
            forall|k1: int, k2: int| 0 <= k1 < k2 < r@.len() ==> r@[k1] < r@[k2],
    {
        let mut r: Vec<usize> = Vec::new();
        let mut i: usize = 0;
        while i < self.tasks.len()
            invariant
                i <= self.spec_tasks().len(),
                forall|k: int|
                    0 <= k < r@.len() ==> r@[k] < i && self.spec_tasks()[r@[k] as int]
                        is Runnable,
                forall|j: int|
                    0 <= j < i && self.spec_tasks()[j] is Runnable ==> exists|k: int|
                        0 <= k < r@.len() && r@[k] == j,
                forall|k1: int, k2: int| 0 <= k1 < k2 < r@.len() ==> r@[k1] < r@[k2],
            decreases self.spec_tasks().len() - i,
        {
            match self.tasks[i] {
                TaskStatus::Runnable => {
                    let ghost prev = r@;
                    r.push(i);
                    proof {
                        assert forall|j: int|
                            0 <= j < i + 1 && self.spec_tasks()[j] is Runnable implies exists|k: int|
                            0 <= k < r@.len() && r@[k] == j by {
                            if j < i {
                                let k = choose|k: int| 0 <= k < prev.len() && prev[k] == j;
                                assert(r@[k] == j);
                            } else {
                                assert(r@[r@.len() - 1] == j);
                            }
                        }
                    }
                },
                _ => (),
            }
            i = i + 1;
        }
        r
    }

    /// One pass of the scheduler's alarm bookkeeping, run on each hardware
    /// wakeup: a due alarm fires and resolves exactly the timer-suspended
    /// tasks whose deadline is reached; then the single compare channel is
    /// reprogrammed to the minimum deadline still outstanding, or cleared
    /// when none is.
    pub fn service_alarm(&mut self, timer: &mut TimerDriver)
        ensures
            final(self).spec_capacity() == old(self).spec_capacity(),
            final(self).spec_tasks().len() == old(self).spec_tasks().len(),
            (old(timer).spec_armed() matches Some(d) && deadline_reached(
                old(timer).spec_now(),
                d,
            )) ==> forall|j: int|
                0 <= j < old(self).spec_tasks().len() ==> final(self).spec_tasks()[j]
                    == Scheduler::woken(old(self).spec_tasks()[j], old(timer).spec_now()),
            !(old(timer).spec_armed() matches Some(d) && deadline_reached(
                old(timer).spec_now(),
                d,
            )) ==> final(self).spec_tasks() == old(self).spec_tasks(),
            final(timer).spec_armed() == min_deadline_of(final(self).spec_tasks()),
            final(timer).spec_now() == old(timer).spec_now(),
    {
        let now = timer.now();
        let fired = timer.fire_if_due();
        if fired {
            self.wake_due(now);
        }
        self.reprogram_alarm(timer);
    }

    /// Whether any task is runnable; when none is, the processor enters
    /// its low-power wait until the next hardware interrupt.
    pub fn any_runnable(&self) -> (r: bool)
        ensures
            r == exists|j: int| 0 <= j < self.spec_tasks().len() && self.spec_tasks()[j]
                is Runnable,
    {
        let mut i: usize = 0;
        while i < self.tasks.len()
            invariant
                i <= self.spec_tasks().len(),
                forall|j: int| 0 <= j < i ==> !(self.spec_tasks()[j] is Runnable),
            decreases self.spec_tasks().len() - i,
        {
            match self.tasks[i] {
                TaskStatus::Runnable => {
                    return true;
                },
                _ => (),
            }
            i = i + 1;
        }
        false
    }
}

} // verus!
