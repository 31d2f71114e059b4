//! The consumer's end of the event pipeline: the queue that the listener
//! fills, and the status that was seen last.

use crate::clock::Clock;
use crate::debounce::{Action, Debounce, Target};
use crate::status::{last_known, MotionError, MotionStatus, PipelineMessage};
use tokio::sync::mpsc::error::TryRecvError;
use tokio::sync::mpsc::{Receiver, Sender};
use vstd::prelude::*;

verus! {

/// The receiving end of a bounded channel of tokio. Nothing is known of what
/// it holds: the listener fills it from another task.
#[verifier::external_type_specification]
#[verifier::external_body]
#[verifier::reject_recursive_types(T)]
pub struct ExReceiver<T>(Receiver<T>);

/// The sending end of a bounded channel of tokio.
#[verifier::external_type_specification]
#[verifier::external_body]
#[verifier::reject_recursive_types(T)]
pub struct ExSender<T>(Sender<T>);

/// `tokio::sync::mpsc::channel` makes a bounded channel and returns its two
/// ends. It panics when the bound is zero or above an eighth of `usize::MAX`,
/// which `requires` leaves out. Nothing is claimed of the two ends.
pub assume_specification<T>[ tokio::sync::mpsc::channel::<T> ](buffer: usize) -> (ends: (
    Sender<T>,
    Receiver<T>,
))
    requires
        0 < buffer <= usize::MAX / 8,
;

/// How many messages the queue holds before the listener has to wait.
pub const QUEUE_BOUND: usize = 20;

/// What the queue answers when it is asked for its next message without
/// waiting.
#[derive(Clone, Copy, Debug)]
pub enum Polled {
    /// The next message of the queue.
    Message(PipelineMessage),
    /// The queue is empty, and its producer is still there.
    Empty,
    /// The queue is empty, and its producer is gone: nothing will be
    /// pushed any more. To a drain that is an empty queue like any other;
    /// only a wait for the next status fails on it.
    Closed,
}

/// Asks the queue for its next message with `Receiver::try_recv`, which does
/// not wait. What the queue answers depends on what the listener has pushed
/// by now, so nothing is claimed of the answer.
#[verifier::external_body]
fn poll(rx: &mut Receiver<PipelineMessage>) -> (answer: Polled) {
    match rx.try_recv() {
        Ok(message) => Polled::Message(message),
        Err(TryRecvError::Empty) => Polled::Empty,
        Err(TryRecvError::Disconnected) => Polled::Closed,
    }
}

/// How a drain goes on after one answer of the queue.
#[derive(Clone, Copy, Debug, PartialEq, Eq, Structural)]
pub enum DrainStep {
    /// A status was collected; the queue is asked again.
    Continue,
    /// The queue is empty, with its producer there or gone: the drain
    /// returns what it has collected.
    Finish,
    /// The drain fails as a whole, and what it has collected is discarded.
    Fail(MotionError),
}

/// The step that a drain takes on `answer`.
pub open spec fn drain_step(answer: Polled) -> DrainStep {
    match answer {
        Polled::Message(Ok(_)) => DrainStep::Continue,
        Polled::Message(Err(_)) => DrainStep::Fail(MotionError::ConnectionLost),
        Polled::Empty => DrainStep::Finish,
        Polled::Closed => DrainStep::Finish,
    }
}

/// The statuses that a drain has collected after `answer`, having collected
/// `collected` before it.
pub open spec fn collected_after(collected: Seq<MotionStatus>, answer: Polled) -> Seq<
    MotionStatus,
> {
    match answer {
        Polled::Message(Ok(status)) => collected.push(status),
        _ => collected,
    }
}

/// What a drain returns that has collected `collected` and to which the
/// queue then gives `answers`, one for each time it is asked: the drain goes
/// on while it gets statuses, and ends with the first answer that is none.
pub open spec fn drain_from(collected: Seq<MotionStatus>, answers: Seq<Polled>) -> Result<
    Seq<MotionStatus>,
    MotionError,
>
    decreases answers.len(),
{
    if answers.len() == 0 {
        Ok(collected)
    } else {
        match drain_step(answers[0]) {
            DrainStep::Continue => drain_from(
                collected_after(collected, answers[0]),
                answers.skip(1),
            ),
            DrainStep::Finish => Ok(collected),
            DrainStep::Fail(e) => Err(e),
        }
    }
}

/// What a drain returns to which the queue gives `answers`.
pub open spec fn drain_of(answers: Seq<Polled>) -> Result<Seq<MotionStatus>, MotionError> {
    drain_from(Seq::empty(), answers)
}

/// The answers by which a queue hands out `statuses`.
pub open spec fn handed_out(statuses: Seq<MotionStatus>) -> Seq<Polled> {
    Seq::new(statuses.len(), |i: int| Polled::Message(Ok(statuses[i])))
}

/// A drain that is handed statuses collects them, and goes on from there.
pub proof fn drain_collects(
    collected: Seq<MotionStatus>,
    statuses: Seq<MotionStatus>,
    rest: Seq<Polled>,
)
    ensures
        drain_from(collected, handed_out(statuses) + rest) == drain_from(collected + statuses, rest),
    decreases statuses.len(),
{
    let answers = handed_out(statuses) + rest;
    if statuses.len() == 0 {
        assert(answers =~= rest);
        assert(collected + statuses =~= collected);
    } else {
        let later = statuses.skip(1);
        assert(answers[0] == Polled::Message(Ok(statuses[0])));
        assert(answers.skip(1) =~= handed_out(later) + rest);
        drain_collects(collected.push(statuses[0]), later, rest);
        assert(collected.push(statuses[0]) + later =~= collected + statuses);
    }
}

/// Takes one answer of the queue into a drain that has collected `collected`
/// so far: a status is appended, an empty queue ends the drain, and a
/// failure fails it.
pub fn take_answer(collected: &mut Vec<MotionStatus>, answer: Polled) -> (step: DrainStep)
    ensures
        step == drain_step(answer),
        final(collected)@ == collected_after(old(collected)@, answer),
{
    match answer {
        Polled::Message(Ok(status)) => {
            collected.push(status);
            DrainStep::Continue
        },
        Polled::Message(Err(_)) => DrainStep::Fail(MotionError::ConnectionLost),
        Polled::Empty => DrainStep::Finish,
        Polled::Closed => DrainStep::Finish,
    }
}

/// What a wait on the queue amounts to: the status that was received, or the
/// reason why there is none.
pub open spec fn awaited(received: Option<PipelineMessage>) -> Result<MotionStatus, MotionError> {
    match received {
        Some(Ok(status)) => Ok(status),
        Some(Err(_)) => Err(MotionError::ConnectionLost),
        None => Err(MotionError::SessionClosed),
    }
}

/// A handle on the motion events that come from the camera.
pub struct MotionData {
    rx: Receiver<PipelineMessage>,
    last_update: MotionStatus,
    clock: Clock,
}

impl MotionData {
    /// The status that the session has seen last.
    pub closed spec fn last_update(&self) -> MotionStatus {
        self.last_update
    }

    /// The clock by which the session measures time.
    pub closed spec fn timekeeper(&self) -> Clock {
        self.clock
    }

    /// Makes the queue of a new pipeline and the session at its receiving
    /// end. The session has seen nothing yet: its last status is a
    /// `NoChange` of the present moment. The sender is for the listener.
    /// The queue is made for [`QUEUE_BOUND`] messages; that it holds so many
    /// and no more is the channel's own promise, of which no clause speaks.
    pub fn new_with_tx(clock: Clock) -> (made: (Self, Sender<PipelineMessage>))
        ensures
            made.0.last_update() is NoChange,
            made.0.timekeeper() == clock,
    {
        let (tx, rx) = tokio::sync::mpsc::channel(QUEUE_BOUND);
        let now = clock.now();
        (MotionData { rx, last_update: MotionStatus::NoChange(now), clock }, tx)
    }

    /// The status that the session has seen last.
    pub fn last_status(&self) -> (status: MotionStatus)
        ensures
            status == self.last_update(),
    {
        self.last_update
    }

    /// Takes every status that is waiting in the queue, without waiting for
    /// more, and returns them in the order in which they were pushed. The
    /// last of them becomes the last status seen.
    ///
    /// An empty queue is never an error, be its producer there or gone: the
    /// call stops and returns what it has taken. Only a failure in the queue
    /// fails the call, and then as a whole: the statuses taken before the
    /// failure are discarded and the last status seen stays as it was.
    ///
    /// The queue is filled by another task, so no clause says which answers
    /// the queue gave. The first clause says no more than that the result is
    /// what a drain makes of some answers; [`take_answer`] says exactly what
    /// it makes of each.
    pub fn consume_motion_events(&mut self) -> (drained: Result<Vec<MotionStatus>, MotionError>)
        ensures
            exists|answers: Seq<Polled>|
                (#[trigger] drain_of(answers)) == match drained {
                    Ok(events) => Ok::<Seq<MotionStatus>, MotionError>(events@),
                    Err(e) => Err(e),
                },
            match drained {
                Ok(events) => final(self).last_update() == last_known(
                    old(self).last_update(),
                    events@,
                ),
                Err(e) => final(self).last_update() == old(self).last_update() && e
                    == MotionError::ConnectionLost,
            },
            final(self).timekeeper() == old(self).timekeeper(),
    {
        let mut results: Vec<MotionStatus> = Vec::new();
        let ghost mut last_answer: Seq<Polled> = Seq::empty();
        // No vector holds more statuses than this, so the bound ends no
        // drain; it is what shows that the loop ends.
        while results.len() < usize::MAX
            invariant_except_break
                last_answer.len() == 0,
            invariant
                self.last_update == old(self).last_update,
                self.clock == old(self).clock,
            ensures
                last_answer.len() == 0 || (last_answer.len() == 1 && (last_answer[0] is Empty
                    || last_answer[0] is Closed)),
            decreases usize::MAX - results.len(),
        {
            let answer = poll(&mut self.rx);
            let ghost collected = results@;
            match take_answer(&mut results, answer) {
                DrainStep::Continue => {
                    assert(results@ == collected + seq![answer->Message_0->Ok_0]);
                },
                DrainStep::Finish => {
                    proof {
                        last_answer = seq![answer];
                    }
                    break ;
                },
                DrainStep::Fail(e) => {
                    proof {
                        let answers = handed_out(results@) + seq![answer];
                        drain_collects(Seq::empty(), results@, seq![answer]);
                        assert(Seq::<MotionStatus>::empty() + results@ =~= results@);
                        assert(drain_from(results@, seq![answer]) == Err::<
                            Seq<MotionStatus>,
                            MotionError,
                        >(e));
                        assert(drain_of(answers) == Err::<Seq<MotionStatus>, MotionError>(e));
                    }
                    return Err(e);
                },
            }
        }
        proof {
            let answers = handed_out(results@) + last_answer;
            drain_collects(Seq::empty(), results@, last_answer);
            assert(Seq::<MotionStatus>::empty() + results@ =~= results@);
            assert(drain_from(results@, last_answer) == Ok::<Seq<MotionStatus>, MotionError>(
                results@,
            ));
            assert(drain_of(answers) == Ok::<Seq<MotionStatus>, MotionError>(results@));
        }
        if results.len() > 0 {
            self.last_update = results[results.len() - 1];
        }
        Ok(results)
    }

    /// Whether motion is detected at the moment, after the queue has been
    /// drained; `None` while nothing is known about motion.
    pub fn motion_detected(&mut self) -> (motion: Result<Option<bool>, MotionError>)
        ensures
            match motion {
                Ok(m) => m == final(self).last_update().indication(),
                Err(e) => final(self).last_update() == old(self).last_update() && e
                    == MotionError::ConnectionLost,
            },
            final(self).timekeeper() == old(self).timekeeper(),
    {
        match self.consume_motion_events() {
            Ok(_) => Ok(self.last_update.indicates_motion()),
            Err(e) => Err(e),
        }
    }

    /// Whether motion has been detected within the last `duration`
    /// nanoseconds, after the queue has been drained: motion that is active
    /// counts, and so does motion that stopped less than `duration` before
    /// the clock is read. `None` while nothing is known about motion.
    pub fn motion_detected_within(&mut self, duration: u64) -> (motion: Result<
        Option<bool>,
        MotionError,
    >)
        ensures
            match motion {
                Ok(m) => exists|now: u64|
                    m == #[trigger] final(self).last_update().indication_within(now, duration),
                Err(e) => final(self).last_update() == old(self).last_update() && e
                    == MotionError::ConnectionLost,
            },
            final(self).timekeeper() == old(self).timekeeper(),
    {
        match self.consume_motion_events() {
            Ok(_) => {
                let now = self.clock.now();
                Ok(self.last_update.indicates_motion_within(now, duration))
            },
            Err(e) => Err(e),
        }
    }

    /// The first half of waiting for the next status: drains the queue and
    /// returns the last status of the backlog, the others being dropped.
    /// `None` says that the backlog was empty, and that the caller has to
    /// wait on the queue and hand what it receives to
    /// [`MotionData::next_received`].
    ///
    /// As for the drain, the first clause says no more than that the result
    /// is what [`last_of_backlog`] makes of some drain.
    pub fn next_ready(&mut self) -> (ready: Result<Option<MotionStatus>, MotionError>)
        ensures
            exists|answers: Seq<Polled>|
                ready == ready_of(#[trigger] drain_of(answers)) && final(self).last_update()
                    == known_after(old(self).last_update(), drain_of(answers)),
            match ready {
                Ok(Some(status)) => final(self).last_update() == status,
                Ok(None) => final(self).last_update() == old(self).last_update(),
                Err(e) => final(self).last_update() == old(self).last_update() && e
                    == MotionError::ConnectionLost,
            },
            final(self).timekeeper() == old(self).timekeeper(),
    {
        let drained = self.consume_motion_events();
        proof {
            let answers = choose|answers: Seq<Polled>|
                (#[trigger] drain_of(answers)) == drained_view(drained);
            assert(final(self).last_update() == known_after(
                old(self).last_update(),
                drain_of(answers),
            ));
        }
        last_of_backlog(drained)
    }

    /// The second half of waiting for the next status: takes what the wait
    /// on the queue has returned. A status becomes the last status seen and
    /// is returned; a failure is `ConnectionLost`; a queue that was closed
    /// while the caller waited, `None`, is `SessionClosed`.
    pub fn next_received(&mut self, received: Option<PipelineMessage>) -> (next: Result<
        MotionStatus,
        MotionError,
    >)
        ensures
            next == awaited(received),
            final(self).last_update() == match received {
                Some(Ok(status)) => status,
                _ => old(self).last_update(),
            },
            final(self).timekeeper() == old(self).timekeeper(),
    {
        match received {
            Some(Ok(status)) => {
                self.last_update = status;
                Ok(status)
            },
            Some(Err(_)) => Err(MotionError::ConnectionLost),
            None => Err(MotionError::SessionClosed),
        }
    }

    /// Begins a wait for `target` to be held for `min_duration` nanoseconds:
    /// drains the queue, reads the clock, and lets the engine decide on the
    /// last status of the backlog. A status seen before this call does not
    /// count: with an empty backlog the wait is for the next status.
    pub fn begin_wait(&mut self, target: Target, min_duration: u64) -> (begun: Result<
        (Debounce, Action),
        MotionError,
    >)
        ensures
            match begun {
                Ok(wait) => exists|last: Option<MotionStatus>, now: u64|
                    wait == #[trigger] Debounce::begun(target, min_duration, last, now) && (
                    match last {
                        Some(status) => final(self).last_update() == status,
                        None => final(self).last_update() == old(self).last_update(),
                    }),
                Err(e) => final(self).last_update() == old(self).last_update() && e
                    == MotionError::ConnectionLost,
            },
            final(self).timekeeper() == old(self).timekeeper(),
    {
        match self.next_ready() {
            Ok(last) => {
                let now = self.clock.now();
                Ok(Debounce::new(target, min_duration, last, now))
            },
            Err(e) => Err(e),
        }
    }

    /// The clock by which the session measures time.
    pub fn clock(&self) -> (clock: Clock)
        ensures
            clock == self.timekeeper(),
    {
        self.clock
    }

    /// The queue, for the caller to wait on. What the caller takes out of
    /// it is gone from the queue of the session; the session is otherwise
    /// as it was.
    pub fn queue(&mut self) -> (rx: &mut Receiver<PipelineMessage>)
        ensures
            *rx == old(self).receiver(),
            final(self).receiver() == *final(rx),
            final(self).last_update() == old(self).last_update(),
            final(self).timekeeper() == old(self).timekeeper(),
    {
        &mut self.rx
    }

    /// The receiving end of the queue, as the session holds it.
    pub closed spec fn receiver(&self) -> Receiver<PipelineMessage> {
        self.rx
    }
}

/// What a drain has returned, with its statuses as a sequence.
pub open spec fn drained_view(drained: Result<Vec<MotionStatus>, MotionError>) -> Result<
    Seq<MotionStatus>,
    MotionError,
> {
    match drained {
        Ok(events) => Ok(events@),
        Err(e) => Err(e),
    }
}

/// What the first half of a wait for the next status makes of what the
/// drain has returned: the last status of the backlog, no status when the
/// backlog was empty, and the failure of the drain.
pub open spec fn ready_of(drained: Result<Seq<MotionStatus>, MotionError>) -> Result<
    Option<MotionStatus>,
    MotionError,
> {
    match drained {
        Ok(events) => Ok(
            if events.len() > 0 {
                Some(events.last())
            } else {
                None
            },
        ),
        Err(e) => Err(e),
    }
}

/// The status that a session knows last after a drain has returned
/// `drained`, `previous` having been known before: the last status of the
/// backlog, and `previous` when the backlog was empty or the drain failed.
pub open spec fn known_after(
    previous: MotionStatus,
    drained: Result<Seq<MotionStatus>, MotionError>,
) -> MotionStatus {
    match drained {
        Ok(events) => last_known(previous, events),
        Err(_) => previous,
    }
}

/// Picks out of what a drain has returned what a wait for the next status
/// starts with: the last status of the backlog, the others being dropped.
pub fn last_of_backlog(drained: Result<Vec<MotionStatus>, MotionError>) -> (ready: Result<
    Option<MotionStatus>,
    MotionError,
>)
    ensures
        ready == ready_of(drained_view(drained)),
{
    match drained {
        Ok(backlog) => {
            if backlog.len() > 0 {
                Ok(Some(backlog[backlog.len() - 1]))
            } else {
                Ok(None)
            }
        },
        Err(e) => Err(e),
    }
}

} // verus!
