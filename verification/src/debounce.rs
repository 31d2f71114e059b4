//! Waiting until motion has started, or stopped, and has stayed so for a
//! minimum time.
//!
//! The engine decides; its caller waits. After every decision the engine
//! names the [`Action`] that the caller has to perform, and the caller hands
//! back what came of it as an [`Event`], with the time at which it came.
//! A wait is stable once the target status has been held for the minimum
//! time, measured from the time that the status itself carries. The opposite
//! status at any point restarts the wait.
//!
//! The engine trusts no timer: it ends a wait only at a time, as reported to
//! it, at which the state has been held long enough. A timer that keeps its
//! time ends the wait when it fires; after one that fired too soon the race
//! goes on for the rest of the time.

use crate::clock::Clock;
use crate::status::{elapsed, time_between, MotionError, MotionStatus};
use vstd::prelude::*;

verus! {

/// The state that a wait is for.
#[derive(Clone, Copy, Debug, PartialEq, Eq, Structural)]
pub enum Target {
    /// Motion is active.
    Start,
    /// Motion is inactive.
    Stop,
}

impl Target {
    /// Whether `status` says that the target state has been entered.
    pub open spec fn held_by(self, status: MotionStatus) -> bool {
        match self {
            Target::Start => status is Start,
            Target::Stop => status is Stop,
        }
    }

    /// Whether `status` says that the state opposite to the target has been
    /// entered.
    pub open spec fn broken_by(self, status: MotionStatus) -> bool {
        match self {
            Target::Start => status is Stop,
            Target::Stop => status is Start,
        }
    }

    /// Whether `status` says that the target state has been entered.
    pub fn is_held_by(&self, status: &MotionStatus) -> (held: bool)
        ensures
            held == self.held_by(*status),
    {
        match (self, status) {
            (Target::Start, MotionStatus::Start(_)) => true,
            (Target::Stop, MotionStatus::Stop(_)) => true,
            _ => false,
        }
    }

    /// Whether `status` says that the opposite state has been entered.
    pub fn is_broken_by(&self, status: &MotionStatus) -> (broken: bool)
        ensures
            broken == self.broken_by(*status),
    {
        match (self, status) {
            (Target::Start, MotionStatus::Stop(_)) => true,
            (Target::Stop, MotionStatus::Start(_)) => true,
            _ => false,
        }
    }
}

/// Where a wait stands.
#[derive(Clone, Copy, Debug, PartialEq, Eq, Structural)]
pub enum Phase {
    /// The target state was entered at `since` and has not been held long
    /// enough: a timer for the rest of the time races the next status.
    Racing { since: u64 },
    /// The target state is not held: the next status is awaited.
    Waiting,
    /// The target state has been held long enough: the wait has succeeded.
    Stable,
    /// The pipeline has failed, and the wait with it.
    Failed(MotionError),
}

/// What the caller of the engine has to do next.
#[derive(Clone, Copy, Debug, PartialEq, Eq, Structural)]
pub enum Action {
    /// Return with success.
    Finish,
    /// Return with this failure.
    Fail(MotionError),
    /// Start a timer of `timeout` nanoseconds, in the place of any timer
    /// that is running, and wait for the next status beside it; report
    /// whichever comes first.
    Race { timeout: u64 },
    /// Wait for the next status again, beside the timer that is running.
    Listen,
    /// Wait for the next status, with no timer.
    AwaitNext,
}

/// What the caller of the engine reports.
#[derive(Clone, Copy, Debug, PartialEq, Eq, Structural)]
pub enum Event {
    /// The timer of the race has fired before a status arrived.
    TimerFired,
    /// The wait for the next status has returned this status.
    Status(MotionStatus),
    /// The wait for the next status has failed.
    Failure(MotionError),
}

/// Whether a state entered at `since` has been held for `min_duration` at
/// `now`.
pub open spec fn held_long_enough(min_duration: u64, since: u64, now: u64) -> bool {
    min_duration == 0 || elapsed(now, since) >= min_duration
}

/// The phase that a wait enters, and the action that it asks for, when at
/// `now` the target state is held since `since`: the wait is over when the
/// state has been held long enough, and else it races a timer for the rest
/// of the time.
pub open spec fn timing(min_duration: u64, since: u64, now: u64) -> (Phase, Action) {
    if held_long_enough(min_duration, since, now) {
        (Phase::Stable, Action::Finish)
    } else {
        (
            Phase::Racing { since },
            Action::Race { timeout: (min_duration - elapsed(now, since)) as u64 },
        )
    }
}

/// The phase that a wait enters, and the action that it asks for, when
/// `last` is the status known last at `now`.
pub open spec fn decision(
    target: Target,
    min_duration: u64,
    last: Option<MotionStatus>,
    now: u64,
) -> (Phase, Action) {
    match last {
        Some(status) if target.held_by(status) => timing(min_duration, status.time(), now),
        _ => (Phase::Waiting, Action::AwaitNext),
    }
}

/// A wait for a target state that has to be held for a minimum time.
#[derive(Clone, Copy, Debug, PartialEq, Eq, Structural)]
pub struct Debounce {
    /// The state that the wait is for.
    pub target: Target,
    /// The time for which the target state has to be held, in nanoseconds.
    pub min_duration: u64,
    /// Where the wait stands.
    pub phase: Phase,
}

impl Debounce {
    /// This wait, standing at `phase`.
    pub open spec fn at(self, phase: Phase) -> Debounce {
        Debounce { target: self.target, min_duration: self.min_duration, phase }
    }

    /// The wait that begins at `now`, `last` being the status known last,
    /// and the action that it asks for.
    pub open spec fn begun(target: Target, min_duration: u64, last: Option<MotionStatus>, now: u64)
        -> (Debounce, Action) {
        let (phase, action) = decision(target, min_duration, last, now);
        (Debounce { target, min_duration, phase }, action)
    }

    /// The wait after `event` has been reported at `now`, and the action that
    /// it asks for then.
    pub open spec fn after(self, event: Event, now: u64) -> (Debounce, Action) {
        match self.phase {
            Phase::Racing { since } => match event {
                Event::TimerFired => {
                    let (phase, action) = timing(self.min_duration, since, now);
                    (self.at(phase), action)
                },
                Event::Status(status) => if self.target.broken_by(status) {
                    (self.at(Phase::Waiting), Action::AwaitNext)
                } else {
                    (self, Action::Listen)
                },
                Event::Failure(e) => (self.at(Phase::Failed(e)), Action::Fail(e)),
            },
            Phase::Waiting => match event {
                Event::TimerFired => (self, Action::AwaitNext),
                Event::Status(status) => {
                    let (phase, action) = decision(
                        self.target,
                        self.min_duration,
                        Some(status),
                        now,
                    );
                    (self.at(phase), action)
                },
                Event::Failure(e) => (self.at(Phase::Failed(e)), Action::Fail(e)),
            },
            Phase::Stable => (self, Action::Finish),
            Phase::Failed(e) => (self, Action::Fail(e)),
        }
    }

    /// Begins a wait at `now`. `last` is the last status of the backlog that
    /// was drained when the wait began, or `None` when the backlog was empty.
    pub fn new(target: Target, min_duration: u64, last: Option<MotionStatus>, now: u64) -> (begun:
        (Debounce, Action))
        ensures
            begun == Debounce::begun(target, min_duration, last, now),
    {
        let (phase, action) = decide(target, min_duration, last, now);
        (Debounce { target, min_duration, phase }, action)
    }

    /// Takes what the caller reports at `now` and names what it has to do
    /// next.
    pub fn step(&mut self, event: Event, now: u64) -> (action: Action)
        ensures
            (*final(self), action) == old(self).after(event, now),
    {
        match self.phase {
            Phase::Racing { since } => match event {
                Event::TimerFired => {
                    let (phase, action) = time_race(self.min_duration, since, now);
                    self.phase = phase;
                    action
                },
                Event::Status(status) => {
                    if self.target.is_broken_by(&status) {
                        self.phase = Phase::Waiting;
                        Action::AwaitNext
                    } else {
                        Action::Listen
                    }
                },
                Event::Failure(e) => {
                    self.phase = Phase::Failed(e);
                    Action::Fail(e)
                },
            },
            Phase::Waiting => match event {
                Event::TimerFired => Action::AwaitNext,
                Event::Status(status) => {
                    let (phase, action) = decide(self.target, self.min_duration, Some(status), now);
                    self.phase = phase;
                    action
                },
                Event::Failure(e) => {
                    self.phase = Phase::Failed(e);
                    Action::Fail(e)
                },
            },
            Phase::Stable => Action::Finish,
            Phase::Failed(e) => Action::Fail(e),
        }
    }
}

impl Debounce {
    /// As [`Debounce::step`], at the time that `clock` shows when the call
    /// is made.
    pub fn step_now(&mut self, event: Event, clock: &Clock) -> (action: Action)
        ensures
            exists|now: u64| (*final(self), action) == #[trigger] old(self).after(event, now),
    {
        let now = clock.now();
        self.step(event, now)
    }
}

/// Decides on the status known last at `now`: the wait is over when the
/// target state has been held long enough; it races a timer for the rest of
/// the time when the state is held but not yet long enough; else it waits
/// for the next status.
pub fn decide(target: Target, min_duration: u64, last: Option<MotionStatus>, now: u64) -> (decided:
    (Phase, Action))
    ensures
        decided == decision(target, min_duration, last, now),
{
    match last {
        Some(status) => {
            if target.is_held_by(&status) {
                time_race(min_duration, status.timestamp(), now)
            } else {
                (Phase::Waiting, Action::AwaitNext)
            }
        },
        None => (Phase::Waiting, Action::AwaitNext),
    }
}

/// Holds the time for which the target state has been held at `now`, being
/// held since `since`, against the minimum time: the wait is over when the
/// state has been held long enough, and else it races a timer for the rest
/// of the time.
pub fn time_race(min_duration: u64, since: u64, now: u64) -> (timed: (Phase, Action))
    ensures
        timed == timing(min_duration, since, now),
{
    let passed = time_between(now, since);
    if min_duration == 0 || passed >= min_duration {
        (Phase::Stable, Action::Finish)
    } else {
        (Phase::Racing { since }, Action::Race { timeout: min_duration - passed })
    }
}

} // verus!
