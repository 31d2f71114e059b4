//! The motion status that a camera notification is classified as, and what
//! a status says about motion now.
//!
//! All times are nanoseconds on one monotonic clock (see
//! [`crate::clock::Clock`]); they are never wall-clock times.

use vstd::prelude::*;

verus! {

/// What one notification said about motion, with the time at which the
/// status was produced.
#[derive(Clone, Copy, Debug, PartialEq, Eq, Structural)]
pub enum MotionStatus {
    /// Motion became active.
    Start(u64),
    /// Motion became inactive.
    Stop(u64),
    /// The notification carried nothing about motion on this channel.
    NoChange(u64),
}

/// The transport behind the event pipeline has dropped. It is the last
/// message of a pipeline: nothing that follows it has a meaning.
#[derive(Clone, Copy, Debug, PartialEq, Eq, Structural)]
pub struct ConnectionError;

/// What travels through the queue between the listener and the session.
pub type PipelineMessage = Result<MotionStatus, ConnectionError>;

/// Why a call on the motion pipeline failed. A failure means that motion
/// information is no longer available, not that motion is absent.
#[derive(Clone, Copy, Debug, PartialEq, Eq, Structural)]
pub enum MotionError {
    /// The camera did not acknowledge the command that arms motion reporting.
    SetupRejected,
    /// The transport failed while the listener was receiving.
    ConnectionLost,
    /// A wait for the next status found the queue closed by its producer,
    /// without a failure having been reported.
    SessionClosed,
}

/// The time that has passed at `now` since `then`; none when `then` is not in
/// the past.
pub open spec fn elapsed(now: u64, then: u64) -> int {
    if now >= then {
        now - then
    } else {
        0
    }
}

/// The status that is known last after `drained` has been observed in order,
/// `previous` having been known before.
pub open spec fn last_known(previous: MotionStatus, drained: Seq<MotionStatus>) -> MotionStatus {
    if drained.len() > 0 {
        drained.last()
    } else {
        previous
    }
}

impl MotionStatus {
    /// The time that the status carries.
    pub open spec fn time(self) -> u64 {
        match self {
            MotionStatus::Start(t) => t,
            MotionStatus::Stop(t) => t,
            MotionStatus::NoChange(t) => t,
        }
    }

    /// What the status says about motion: active, inactive, or nothing.
    pub open spec fn indication(self) -> Option<bool> {
        match self {
            MotionStatus::Start(_) => Some(true),
            MotionStatus::Stop(_) => Some(false),
            MotionStatus::NoChange(_) => None,
        }
    }

    /// What the status says at `now` when motion that stopped less than
    /// `window` ago still counts as motion.
    pub open spec fn indication_within(self, now: u64, window: u64) -> Option<bool> {
        match self {
            MotionStatus::Start(_) => Some(true),
            MotionStatus::Stop(t) => Some(elapsed(now, t) < window),
            MotionStatus::NoChange(_) => None,
        }
    }

    /// The time at which the status was produced.
    pub fn timestamp(&self) -> (t: u64)
        ensures
            t == self.time(),
    {
        match self {
            MotionStatus::Start(t) => *t,
            MotionStatus::Stop(t) => *t,
            MotionStatus::NoChange(t) => *t,
        }
    }

    /// Whether motion is active according to this status; `None` when the
    /// status says nothing about motion.
    pub fn indicates_motion(&self) -> (motion: Option<bool>)
        ensures
            motion == self.indication(),
    {
        match self {
            MotionStatus::Start(_) => Some(true),
            MotionStatus::Stop(_) => Some(false),
            MotionStatus::NoChange(_) => None,
        }
    }

    /// As [`MotionStatus::indicates_motion`], but a stop that lies less than
    /// `window` before `now` still counts as motion. A stop exactly `window`
    /// ago does not.
    pub fn indicates_motion_within(&self, now: u64, window: u64) -> (motion: Option<bool>)
        ensures
            motion == self.indication_within(now, window),
    {
        match self {
            MotionStatus::Start(_) => Some(true),
            MotionStatus::Stop(t) => Some(time_between(now, *t) < window),
            MotionStatus::NoChange(_) => None,
        }
    }
}

/// The time from `then` to `now`, zero when `then` is not in the past.
pub fn time_between(now: u64, then: u64) -> (passed: u64)
    ensures
        passed == elapsed(now, then),
{
    if now >= then {
        now - then
    } else {
        0
    }
}

} // verus!
