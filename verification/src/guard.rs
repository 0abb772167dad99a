//! The capture guard: at most one guarded workflow runs at a time, and one
//! that never reports its end is cleared by a watchdog at its deadline.
//!
//! Time is a count of milliseconds that the caller reads from a clock that
//! does not run backwards.

use vstd::prelude::*;

verus! {

/// How long a guarded workflow may run before the watchdog clears it, in
/// milliseconds.
pub const GUARD_TIMEOUT_MS: u64 = 10000;

/// The answer to a start while a workflow is in progress.
#[derive(Clone, Copy, Debug, PartialEq, Eq, Structural)]
pub struct AlreadyInProgress;

/// The guard: idle, or active until a deadline.
#[derive(Clone, Copy, Debug, PartialEq, Eq, Structural)]
pub enum CaptureGuard {
    Idle,
    Active { deadline: u64 },
}

/// The deadline of a workflow started at `now`: the timeout later, or the
/// end of time where that comes first.
pub open spec fn deadline_after(now: u64) -> u64 {
    if now <= u64::MAX - GUARD_TIMEOUT_MS {
        (now + GUARD_TIMEOUT_MS) as u64
    } else {
        u64::MAX
    }
}

impl CaptureGuard {
    /// The guard after a start at `now`.
    pub open spec fn after_start(self, now: u64) -> CaptureGuard {
        match self {
            CaptureGuard::Idle => CaptureGuard::Active { deadline: deadline_after(now) },
            CaptureGuard::Active { .. } => self,
        }
    }

    /// What a start at `now` answers.
    pub open spec fn start_answer(self, now: u64) -> Result<u64, AlreadyInProgress> {
        match self {
            CaptureGuard::Idle => Ok(deadline_after(now)),
            CaptureGuard::Active { .. } => Err(AlreadyInProgress),
        }
    }

    /// Whether the watchdog, firing at `now`, finds a workflow past its
    /// deadline.
    pub open spec fn is_overdue(self, now: u64) -> bool {
        match self {
            CaptureGuard::Idle => false,
            CaptureGuard::Active { deadline } => now >= deadline,
        }
    }

    /// The guard after the watchdog fired at `now`.
    pub open spec fn after_watchdog(self, now: u64) -> CaptureGuard {
        if self.is_overdue(now) {
            CaptureGuard::Idle
        } else {
            self
        }
    }

    /// A guard with no workflow in progress.
    pub fn new() -> (r: CaptureGuard)
        ensures
            r == CaptureGuard::Idle,
    {
        CaptureGuard::Idle
    }

    /// Whether a workflow is in progress.
    pub fn is_active(&self) -> (r: bool)
        ensures
            r == (*self is Active),
    {
        match self {
            CaptureGuard::Idle => false,
            CaptureGuard::Active { .. } => true,
        }
    }

    /// Starts a workflow at `now`. An idle guard becomes active and answers
    /// with the deadline at which the watchdog is to fire; an active guard
    /// stays as it is and refuses.
    pub fn try_start(&mut self, now: u64) -> (r: Result<u64, AlreadyInProgress>)
        ensures
            *final(self) == old(self).after_start(now),
            r == old(self).start_answer(now),
    {
        match *self {
            CaptureGuard::Idle => {
                let deadline: u64 = if now <= u64::MAX - GUARD_TIMEOUT_MS {
                    now + GUARD_TIMEOUT_MS
                } else {
                    u64::MAX
                };
                *self = CaptureGuard::Active { deadline };
                Ok(deadline)
            },
            CaptureGuard::Active { .. } => Err(AlreadyInProgress),
        }
    }

    /// Ends the workflow, if one is in progress.
    pub fn clear(&mut self)
        ensures
            *final(self) == CaptureGuard::Idle,
    {
        *self = CaptureGuard::Idle;
    }

    /// The watchdog fires at `now`. A workflow that has reached its deadline
    /// is cleared by force, and the answer is `true`; otherwise nothing
    /// changes and the answer is `false`.
    pub fn watchdog(&mut self, now: u64) -> (forced: bool)
        ensures
            *final(self) == old(self).after_watchdog(now),
            forced == old(self).is_overdue(now),
    {
        match *self {
            CaptureGuard::Idle => false,
            CaptureGuard::Active { deadline } => {
                if now >= deadline {
                    *self = CaptureGuard::Idle;
                    true
                } else {
                    false
                }
            },
        }
    }
}

/// A workflow that never reports its end blocks no longer than the timeout:
/// once the watchdog has fired at or after the deadline, the guard is idle, the
/// clearing was forced, and the next start succeeds.
pub proof fn watchdog_frees_guard(now: u64, later: u64, again: u64)
    requires
        later >= now + GUARD_TIMEOUT_MS,
    ensures
        ({
            let started = CaptureGuard::Idle.after_start(now);
            &&& started is Active
            &&& started.is_overdue(later)
            &&& started.after_watchdog(later) == CaptureGuard::Idle
            &&& started.after_watchdog(later).start_answer(again) is Ok
        }),
{
}

/// After a workflow has reported its end, the watchdog finds nothing to
/// clear, whenever it fires.
pub proof fn watchdog_spares_cleared_guard(later: u64)
    ensures
        !CaptureGuard::Idle.is_overdue(later),
        CaptureGuard::Idle.after_watchdog(later) == CaptureGuard::Idle,
{
}

/// Before its deadline a workflow is left alone.
pub proof fn watchdog_waits_for_deadline(now: u64, early: u64)
    requires
        early < deadline_after(now),
    ensures
        CaptureGuard::Idle.after_start(now).after_watchdog(early) == CaptureGuard::Idle.after_start(
            now,
        ),
{
}

/// While a workflow is in progress no other starts: the guard refuses and
/// keeps its deadline.
pub proof fn active_guard_refuses(guard: CaptureGuard, now: u64)
    requires
        guard is Active,
    ensures
        guard.start_answer(now) is Err,
        guard.after_start(now) == guard,
{
}

} // verus!
