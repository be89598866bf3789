use vstd::prelude::*;

verus! {

/// What the scheduler does once a tick has been evaluated.
#[derive(Debug, Clone, Copy, PartialEq, Eq)]
pub enum Action {
    /// The expression is met: the wait is over.
    Finish,
    /// Sleep for so many nanoseconds, then start the next tick.
    Sleep(u64),
    /// Start the next tick at once.
    Poll,
}

/// What is left of the interval once the evaluation has taken `spent`:
/// the time to sleep, or `None` where the evaluation took the whole
/// interval or more.
pub open spec fn remainder(interval: u64, spent: u64) -> Option<u64> {
    if spent < interval {
        Some((interval - spent) as u64)
    } else {
        None
    }
}

/// The time to sleep between two ticks that are to start `interval`
/// apart, when evaluating the first took `spent`. It is never negative,
/// never longer than the interval, and there is none where the evaluation
/// took the interval or more.
pub fn pause(interval: u64, spent: u64) -> (sleep: Option<u64>)
    ensures
        sleep == remainder(interval, spent),
        sleep matches Some(time) ==> 0 < time <= interval && spent + time == interval,
        sleep.is_none() <==> spent >= interval,
{
    if interval > spent {
        Some(interval - spent)
    } else {
        None
    }
}

/// The scheduler's decision after a tick: finish where the expression was
/// met, else sleep for the rest of the interval, or poll again at once
/// where nothing is left of it.
pub fn after_tick(met: bool, interval: u64, spent: u64) -> (action: Action)
    ensures
        action == if met {
            Action::Finish
        } else {
            match remainder(interval, spent) {
                Some(time) => Action::Sleep(time),
                None => Action::Poll,
            }
        },
{
    if met {
        Action::Finish
    } else {
        match pause(interval, spent) {
            Some(time) => Action::Sleep(time),
            None => Action::Poll,
        }
    }
}

/// The time that a tick took which started at the clock reading `start`
/// and ended at `now`. On a clock that went back it took no time.
pub open spec fn time_spent(start: u64, now: u64) -> u64 {
    if now >= start {
        (now - start) as u64
    } else {
        0
    }
}

/// The polling schedule: ticks that start `interval` apart, as far as
/// their evaluation leaves time for that, until one finds the expression
/// met. Once satisfied it stays so.
#[derive(Debug, Clone, Copy, PartialEq, Eq)]
pub struct Scheduler {
    /// The nominal time from the start of one tick to the start of the next.
    pub interval: u64,
    /// The clock reading at which the present tick started.
    pub tick_start: u64,
    /// Whether a tick has found the expression met.
    pub satisfied: bool,
}

impl Scheduler {
    /// The schedule once a tick has ended that found the expression `met`
    /// or not.
    pub open spec fn ended(self, met: bool) -> Scheduler {
        Scheduler { satisfied: self.satisfied || met, ..self }
    }

    /// What to do once a tick has ended at the clock reading `now`:
    /// finish where the expression was met, now or before; else sleep for
    /// what is left of the interval, or poll again at once where nothing
    /// is left of it.
    pub open spec fn action(self, met: bool, now: u64) -> Action {
        if self.satisfied || met {
            Action::Finish
        } else {
            match remainder(self.interval, time_spent(self.tick_start, now)) {
                Some(time) => Action::Sleep(time),
                None => Action::Poll,
            }
        }
    }

    /// A schedule that is polling, with no tick started yet.
    pub fn new(interval: u64) -> (scheduler: Scheduler)
        ensures
            scheduler == (Scheduler { interval, tick_start: 0, satisfied: false }),
    {
        Scheduler { interval, tick_start: 0, satisfied: false }
    }

    /// Records that a tick starts at the clock reading `now`.
    pub fn start_tick(&mut self, now: u64)
        ensures
            *final(self) == (Scheduler { tick_start: now, ..*old(self) }),
    {
        self.tick_start = now;
    }

    /// Ends the tick, whose evaluation found the expression `met` or not
    /// and was over at the clock reading `now`, and says what to do next.
    pub fn end_tick(&mut self, met: bool, now: u64) -> (action: Action)
        ensures
            *final(self) == old(self).ended(met),
            action == old(self).action(met, now),
    {
        if self.satisfied || met {
            self.satisfied = true;
            return Action::Finish;
        }
        let spent: u64 = if now >= self.tick_start {
            now - self.tick_start
        } else {
            0
        };
        after_tick(false, self.interval, spent)
    }
}

/// The schedule never turns back from satisfied to polling, and finishes
/// exactly when it is satisfied. It tells to sleep only for what is left
/// of the interval, which is more than nothing, and to poll at once where
/// the tick took the interval or more.
pub proof fn schedule_is_sound(before: Scheduler, met: bool, now: u64)
    ensures
        before.satisfied ==> before.ended(met).satisfied,
        before.action(met, now) == Action::Finish <==> before.ended(met).satisfied,
        before.action(met, now) matches Action::Sleep(time) ==> 0 < time <= before.interval && time
            + time_spent(before.tick_start, now) == before.interval,
        before.action(met, now) == Action::Poll ==> time_spent(before.tick_start, now)
            >= before.interval,
        time_spent(before.tick_start, now) >= before.interval ==> !(before.action(
            met,
            now,
        ) matches Action::Sleep(_)),
{
}

} // verus!
