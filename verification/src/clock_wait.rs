//! Waiting on the pipeline clock in live mode, and being woken from it.

use vstd::prelude::*;

verus! {

/// The state of a source's wait on the clock.
#[derive(Debug, Clone, Copy, PartialEq, Eq, Structural)]
pub struct ClockWait {
    /// A wait is scheduled.
    pub scheduled: bool,
    /// The source is flushing, and does not wait.
    pub flushing: bool,
}

impl Default for ClockWait {
    fn default() -> (r: Self)
        ensures
            r == (ClockWait { scheduled: false, flushing: true }),
    {
        ClockWait { scheduled: false, flushing: true }
    }
}

/// What came of waiting for a buffer's time.
#[derive(Debug, Clone, Copy, PartialEq, Eq, Structural)]
pub enum WaitOutcome {
    Reached,
    Flushing,
}

impl ClockWait {
    /// The state after the source is woken and kept from waiting.
    pub open spec fn unlocked(self) -> ClockWait {
        ClockWait { scheduled: false, flushing: true }
    }

    /// The state after the source may wait again.
    pub open spec fn released(self) -> ClockWait {
        ClockWait { flushing: false, ..self }
    }

    /// What comes of scheduling a wait, and the state after it.
    pub open spec fn begun(self) -> (WaitOutcome, ClockWait) {
        if self.flushing {
            (WaitOutcome::Flushing, self)
        } else {
            (WaitOutcome::Reached, ClockWait { scheduled: true, flushing: false })
        }
    }

    /// What came of a wait, and the state after it.
    pub open spec fn ended(self, unscheduled: bool) -> (WaitOutcome, ClockWait) {
        (
            if unscheduled {
                WaitOutcome::Flushing
            } else {
                WaitOutcome::Reached
            },
            ClockWait { scheduled: false, ..self },
        )
    }

    /// Wake the source and keep it from waiting. Says whether there is a wait to
    /// unschedule.
    pub fn unlock(&mut self) -> (unschedule: bool)
        ensures
            unschedule == old(self).scheduled,
            *final(self) == (ClockWait { scheduled: false, flushing: true }),
            *final(self) == old(self).unlocked(),
    {
        let unschedule: bool = self.scheduled;
        self.scheduled = false;
        self.flushing = true;
        unschedule
    }

    /// Let the source wait again.
    pub fn unlock_stop(&mut self)
        ensures
            *final(self) == (ClockWait { flushing: false, ..*old(self) }),
            *final(self) == old(self).released(),
    {
        self.flushing = false;
    }

    /// Schedule a wait, unless the source is flushing.
    pub fn begin(&mut self) -> (r: WaitOutcome)
        ensures
            old(self).flushing ==> r == WaitOutcome::Flushing && *final(self) == *old(self),
            !old(self).flushing ==> r == WaitOutcome::Reached && *final(self) == (ClockWait {
                scheduled: true,
                flushing: false,
            }),
            (r, *final(self)) == old(self).begun(),
    {
        if self.flushing {
            WaitOutcome::Flushing
        } else {
            self.scheduled = true;
            WaitOutcome::Reached
        }
    }

    /// The wait is over: it was unscheduled, or the time has come.
    pub fn end(&mut self, unscheduled: bool) -> (r: WaitOutcome)
        ensures
            *final(self) == (ClockWait { scheduled: false, ..*old(self) }),
            r == if unscheduled {
                WaitOutcome::Flushing
            } else {
                WaitOutcome::Reached
            },
            (r, *final(self)) == old(self).ended(unscheduled),
    {
        self.scheduled = false;
        if unscheduled {
            WaitOutcome::Flushing
        } else {
            WaitOutcome::Reached
        }
    }
}

/// The clock time to wait for, where a live source has one.
pub open spec fn wait_time(
    is_live: bool,
    running_time: Option<u64>,
    base_time: Option<u64>,
) -> Option<u64> {
    match (running_time, base_time) {
        (Some(t), Some(b)) => if is_live {
            Some((t + b) as u64)
        } else {
            None
        },
        _ => None,
    }
}

/// The clock time to wait for, where a live source has one: the running time of the
/// buffer's end, from the base time on.
pub fn wait_until(is_live: bool, running_time: Option<u64>, base_time: Option<u64>) -> (r: Option<
    u64,
>)
    requires
        running_time matches Some(t) ==> base_time matches Some(b) ==> t + b < u64::MAX,
    ensures
        r == match (running_time, base_time) {
            (Some(t), Some(b)) => if is_live {
                Some((t + b) as u64)
            } else {
                None
            },
            _ => None,
        },
        r == wait_time(is_live, running_time, base_time),
{
    if !is_live {
        return None;
    }
    match (running_time, base_time) {
        (Some(t), Some(b)) => Some(t + b),
        _ => None,
    }
}

/// A source that was woken does not wait until it is let to, and one that was let to waits: what
/// was woken stays so however often a wait is tried.
pub proof fn woken_sources_do_not_wait(wait: ClockWait)
    ensures
        wait.unlocked().begun() == (WaitOutcome::Flushing, wait.unlocked()),
        wait.unlocked().released().begun().0 == WaitOutcome::Reached,
        wait.released().begun().1.scheduled,
        wait.unlocked().unlocked() == wait.unlocked(),
        !wait.unlocked().scheduled,
{
}

/// A wait is scheduled from its beginning to its end, and only then; how it ends changes nothing
/// but what is said of it, and a wait that was broken off is said to be.
pub proof fn waits_end(wait: ClockWait, unscheduled: bool)
    ensures
        wait.begun().0 == WaitOutcome::Reached ==> wait.begun().1.scheduled,
        wait.begun().0 == WaitOutcome::Flushing ==> wait.begun().1 == wait,
        wait.begun().1.flushing == wait.flushing,
        !wait.ended(unscheduled).1.scheduled,
        wait.ended(unscheduled).1.flushing == wait.flushing,
        wait.ended(unscheduled).0 == WaitOutcome::Flushing <==> unscheduled,
        wait.released().scheduled == wait.scheduled,
{
}

/// A live source waits as long after the base time as the buffer's running time says: of two
/// buffers, the waits lie as far apart as the buffers. A source that is not live never waits.
pub proof fn waits_follow_running_time(a: u64, b: u64, base: u64)
    requires
        a + base < u64::MAX,
        b + base < u64::MAX,
    ensures
        wait_time(true, Some(a), Some(base)) matches Some(x) && (wait_time(
            true,
            Some(b),
            Some(base),
        ) matches Some(y) && x - y == a - b && x >= base && (a == 0 ==> x == base)),
        wait_time(false, Some(a), Some(base)) is None,
        wait_time(true, None, Some(base)) is None,
        wait_time(true, Some(a), None) is None,
{
}

} // verus!
