use vstd::prelude::*;

verus! {

/// Seconds between two update ticks.
pub const UPDATE_INTERVAL_SECS: u64 = 30;

/// Seconds between two store ticks, unless the caller picks another.
pub const DEFAULT_STORE_INTERVAL_SECS: u64 = 60;

/// Seconds after which the whole run is abandoned.
pub const RUN_TIMEOUT_SECS: u64 = 300;

/// What the driver of the run is to do next.
#[derive(Clone, Copy, Debug, PartialEq, Eq, Structural)]
pub enum Action {
    /// Replace every record's result.
    Update,
    /// Write a snapshot of the collection.
    Store,
    /// Sleep until the given instant, then step again.
    WaitUntil(u64),
    /// The deadline has passed: the run ends in failure.
    Expire,
}

/// The two periodic tasks and the overall deadline. Instants are counted in
/// one unit (seconds since the run started, say), chosen by the driver.
#[derive(Clone, Copy, Debug, PartialEq, Eq, Structural)]
pub struct Scheduler {
    pub update_interval: u64,
    pub store_interval: u64,
    pub deadline: u64,
    pub next_update: u64,
    pub next_store: u64,
}

/// `t + d`, held at the largest instant.
pub open spec fn later(t: u64, d: u64) -> u64 {
    if t + d <= u64::MAX {
        (t + d) as u64
    } else {
        u64::MAX
    }
}

pub open spec fn min3(a: u64, b: u64, c: u64) -> u64 {
    if a <= b && a <= c {
        a
    } else if b <= c {
        b
    } else {
        c
    }
}

fn add_held(t: u64, d: u64) -> (r: u64)
    ensures
        r == later(t, d),
{
    if t <= u64::MAX - d {
        t + d
    } else {
        u64::MAX
    }
}

/// The scheduler after `step(now)`, and the action it gives.
pub open spec fn step_spec(s: Scheduler, now: u64) -> (Scheduler, Action) {
    if now >= s.deadline {
        (s, Action::Expire)
    } else if now >= s.next_update {
        (Scheduler { next_update: later(now, s.update_interval), ..s }, Action::Update)
    } else if now >= s.next_store {
        (Scheduler { next_store: later(now, s.store_interval), ..s }, Action::Store)
    } else {
        (s, Action::WaitUntil(min3(s.next_update, s.next_store, s.deadline)))
    }
}

impl Scheduler {
    /// A run that starts at `start`: both tasks are due at once, and the run
    /// expires `timeout` after `start`.
    pub fn new(start: u64, update_interval: u64, store_interval: u64, timeout: u64) -> (r: Scheduler)
        ensures
            r.update_interval == update_interval,
            r.store_interval == store_interval,
            r.deadline == later(start, timeout),
            r.next_update == start,
            r.next_store == start,
    {
        Scheduler {
            update_interval,
            store_interval,
            deadline: add_held(start, timeout),
            next_update: start,
            next_store: start,
        }
    }

    /// The run with the fixed update interval and timeout and the given
    /// store interval.
    pub fn with_store_interval(start: u64, store_interval: u64) -> (r: Scheduler)
        ensures
            r == Scheduler::new_spec(start, UPDATE_INTERVAL_SECS, store_interval, RUN_TIMEOUT_SECS),
    {
        Scheduler::new(start, UPDATE_INTERVAL_SECS, store_interval, RUN_TIMEOUT_SECS)
    }

    pub open spec fn new_spec(start: u64, update_interval: u64, store_interval: u64, timeout: u64) -> Scheduler {
        Scheduler {
            update_interval,
            store_interval,
            deadline: later(start, timeout),
            next_update: start,
            next_store: start,
        }
    }

    /// Decides what to do at instant `now`. Past the deadline the run
    /// expires; otherwise a due update comes before a due store, and a task
    /// that runs is next due one interval after `now`; with nothing due the
    /// driver waits for the earliest of the two tasks and the deadline.
    pub fn step(&mut self, now: u64) -> (a: Action)
        ensures
            (*final(self), a) == step_spec(*old(self), now),
    {
        if now >= self.deadline {
            Action::Expire
        } else if now >= self.next_update {
            self.next_update = add_held(now, self.update_interval);
            Action::Update
        } else if now >= self.next_store {
            self.next_store = add_held(now, self.store_interval);
            Action::Store
        } else {
            let mut w = self.next_update;
            if self.next_store < w {
                w = self.next_store;
            }
            if self.deadline < w {
                w = self.deadline;
            }
            Action::WaitUntil(w)
        }
    }
}

/// Nothing runs once the deadline is reached: the run expires and the
/// scheduler stays as it was.
pub proof fn lemma_deadline_is_final(s: Scheduler, now: u64)
    requires
        now >= s.deadline,
    ensures
        step_spec(s, now) == (s, Action::Expire),
{
}

/// A wait always ends strictly later than the instant it was decided at, and
/// no later than the deadline; a step keeps the intervals and the deadline.
pub proof fn lemma_wait_makes_progress(s: Scheduler, now: u64)
    ensures
        step_spec(s, now).0.deadline == s.deadline,
        step_spec(s, now).0.update_interval == s.update_interval,
        step_spec(s, now).0.store_interval == s.store_interval,
        step_spec(s, now).1 matches Action::WaitUntil(w) ==> now < w <= s.deadline,
{
}

} // verus!
