//! The listener's part of the event pipeline: what status a notification of
//! the camera amounts to, what is pushed into the queue for it, and when the
//! listener stops.
//!
//! The listener itself runs as a task of its own. It receives from the
//! transport and pushes into the queue; what to push, and whether to go on,
//! is decided here.

use crate::clock::Clock;
use crate::status::{ConnectionError, MotionStatus, PipelineMessage};
use vstd::prelude::*;

verus! {

/// One entry of the alarm event list of a notification.
#[derive(Clone, Debug)]
pub struct AlarmEvent {
    /// The camera channel that the entry is about.
    pub channel_id: u8,
    /// The status code of the entry: `MD` when motion is detected, `none`
    /// when there is none; other codes say nothing about motion.
    pub status: String,
}

/// What the transport has handed to the listener.
#[derive(Clone, Debug)]
pub enum Received {
    /// A notification with an alarm event list.
    Alarms(Vec<AlarmEvent>),
    /// A notification that carries nothing about alarms.
    Other,
    /// The transport has failed.
    Failed,
}

/// The status that the entry `event` amounts to at `now`, for the channel
/// that it is about: a start of motion for the code `MD`, a stop for the
/// code `none`, and no change for any other code.
pub open spec fn verdict(event: AlarmEvent, now: u64) -> MotionStatus {
    if event.status@ == "MD"@ {
        MotionStatus::Start(now)
    } else if event.status@ == "none"@ {
        MotionStatus::Stop(now)
    } else {
        MotionStatus::NoChange(now)
    }
}

/// The status that an alarm event list amounts to for `channel_id` at `now`:
/// the first entry about the channel decides, whatever follows it, and a
/// list without an entry about the channel changes nothing.
pub open spec fn classified(events: Seq<AlarmEvent>, channel_id: u8, now: u64) -> MotionStatus
    decreases events.len(),
{
    if events.len() == 0 {
        MotionStatus::NoChange(now)
    } else if events[0].channel_id == channel_id {
        verdict(events[0], now)
    } else {
        classified(events.skip(1), channel_id, now)
    }
}

/// The message that the listener pushes for what it has received at `now`.
pub open spec fn message_for(received: Received, channel_id: u8, now: u64) -> PipelineMessage {
    match received {
        Received::Alarms(events) => Ok(classified(events@, channel_id, now)),
        Received::Other => Ok(MotionStatus::NoChange(now)),
        Received::Failed => Err(ConnectionError),
    }
}

/// Whether `status` is the status code `code`.
fn is_code(status: &String, code: &str) -> (same: bool)
    ensures
        same == (status@ == code@),
{
    let wanted = code.to_owned();
    *status == wanted
}

/// Classifies the alarm event list of a notification for `channel_id`, the
/// notification having arrived at `now`.
pub fn classify(events: &Vec<AlarmEvent>, channel_id: u8, now: u64) -> (status: MotionStatus)
    ensures
        status == classified(events@, channel_id, now),
{
    let mut i: usize = 0;
    assert(events@.skip(0) =~= events@);
    while i < events.len()
        invariant
            i <= events.len(),
            classified(events@, channel_id, now) == classified(
                events@.skip(i as int),
                channel_id,
                now,
            ),
        decreases events.len() - i,
    {
        let event = &events[i];
        proof {
            let rest = events@.skip(i as int);
            assert(rest[0] == events@[i as int]);
            assert(rest.skip(1) =~= events@.skip(i + 1));
        }
        if event.channel_id == channel_id {
            if is_code(&event.status, "MD") {
                return MotionStatus::Start(now);
            } else if is_code(&event.status, "none") {
                return MotionStatus::Stop(now);
            } else {
                return MotionStatus::NoChange(now);
            }
        }
        i = i + 1;
    }
    MotionStatus::NoChange(now)
}

/// The deciding half of the listener task of one camera channel.
#[derive(Clone, Copy, Debug, PartialEq, Eq, Structural)]
pub struct Listener {
    /// The camera channel whose motion the session follows.
    pub channel_id: u8,
    /// Whether the transport has failed. The failure is pushed once, and
    /// the listener stops after it.
    pub failed: bool,
}

impl Listener {
    /// The listener after it has received `received`.
    pub open spec fn received(self, received: Received) -> Listener {
        Listener { channel_id: self.channel_id, failed: self.failed || received is Failed }
    }

    /// Whether the listener goes on after a push that was delivered, or not.
    pub open spec fn goes_on(self, delivered: bool) -> bool {
        delivered && !self.failed
    }

    /// The listener for `channel_id`, before it has received anything.
    pub fn new(channel_id: u8) -> (listener: Listener)
        ensures
            listener == (Listener { channel_id, failed: false }),
    {
        Listener { channel_id, failed: false }
    }

    /// Takes what the transport has handed over at `now` and returns the
    /// message to push into the queue: the status that a notification
    /// amounts to, or the failure of the transport.
    pub fn on_received(&mut self, received: &Received, now: u64) -> (message: PipelineMessage)
        ensures
            message == message_for(*received, old(self).channel_id, now),
            *final(self) == old(self).received(*received),
    {
        match received {
            Received::Alarms(events) => Ok(classify(events, self.channel_id, now)),
            Received::Other => Ok(MotionStatus::NoChange(now)),
            Received::Failed => {
                self.failed = true;
                Err(ConnectionError)
            },
        }
    }

    /// As [`Listener::on_received`], at the time that `clock` shows when
    /// the call is made.
    pub fn on_received_now(&mut self, received: &Received, clock: &Clock) -> (message:
        PipelineMessage)
        ensures
            exists|now: u64|
                message == #[trigger] message_for(*received, old(self).channel_id, now),
            *final(self) == old(self).received(*received),
    {
        let now = clock.now();
        self.on_received(received, now)
    }

    /// Says after a push whether the listener goes on receiving. It stops
    /// when the queue has lost its consumer, so that the push was not
    /// delivered, and after the failure of the transport has been pushed.
    pub fn on_pushed(&self, delivered: bool) -> (go_on: bool)
        ensures
            go_on == self.goes_on(delivered),
    {
        delivered && !self.failed
    }
}

} // verus!
