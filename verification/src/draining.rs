//! What holds of every drain of the queue, and of what a session knows
//! after it.

use crate::session::{drain_from, drain_of, Polled};
use crate::status::{last_known, MotionError, MotionStatus, PipelineMessage};
use vstd::prelude::*;

verus! {

/// The answer of an empty queue: that it is empty, and whether its producer
/// is gone.
pub open spec fn empty_answer(gone: bool) -> Polled {
    if gone {
        Polled::Closed
    } else {
        Polled::Empty
    }
}

/// The answers of a queue that holds `pending` and into which nothing is
/// pushed, its producer being there or `gone`: the messages in the order in
/// which they were pushed, and then that the queue is empty.
pub open spec fn quiet_answers(pending: Seq<PipelineMessage>, gone: bool) -> Seq<Polled> {
    Seq::new(
        pending.len() + 1,
        |i: int|
            if i < pending.len() {
                Polled::Message(pending[i])
            } else {
                empty_answer(gone)
            },
    )
}

/// How many of the messages `pending` a drain takes out of the queue: all
/// of them up to the first failure, and the failure with them.
pub open spec fn taken_by_drain(pending: Seq<PipelineMessage>) -> nat
    decreases pending.len(),
{
    if pending.len() == 0 {
        0
    } else if pending[0] is Err {
        1
    } else {
        1 + taken_by_drain(pending.skip(1))
    }
}

/// What a drain leaves in a queue that held `pending`.
pub open spec fn left_by_drain(pending: Seq<PipelineMessage>) -> Seq<PipelineMessage> {
    pending.skip(taken_by_drain(pending) as int)
}

/// Whether none of the messages `pending` is a failure.
pub open spec fn all_statuses(pending: Seq<PipelineMessage>) -> bool {
    forall|i: int| 0 <= i < pending.len() ==> #[trigger] pending[i] is Ok
}

/// The statuses that the messages `pending` carry.
pub open spec fn statuses_of(pending: Seq<PipelineMessage>) -> Seq<MotionStatus> {
    Seq::new(pending.len(), |i: int| pending[i]->Ok_0)
}

/// What a drain in progress makes of a quiet queue.
proof fn drain_of_quiet_queue(
    collected: Seq<MotionStatus>,
    pending: Seq<PipelineMessage>,
    gone: bool,
)
    ensures
        all_statuses(pending) ==> drain_from(collected, quiet_answers(pending, gone)) == Ok::<
            Seq<MotionStatus>,
            MotionError,
        >(collected + statuses_of(pending)) && taken_by_drain(pending) == pending.len(),
        !all_statuses(pending) ==> drain_from(collected, quiet_answers(pending, gone)) == Err::<
            Seq<MotionStatus>,
            MotionError,
        >(MotionError::ConnectionLost),
    decreases pending.len(),
{
    let answers = quiet_answers(pending, gone);
    if pending.len() == 0 {
        assert(collected + statuses_of(pending) =~= collected);
    } else {
        let rest = pending.skip(1);
        assert(answers[0] == Polled::Message(pending[0]));
        assert(answers.skip(1) =~= quiet_answers(rest, gone));
        match pending[0] {
            Ok(status) => {
                drain_of_quiet_queue(collected.push(status), rest, gone);
                if all_statuses(pending) {
                    assert forall|i: int| 0 <= i < rest.len() implies #[trigger] rest[i] is Ok by {
                        assert(rest[i] == pending[i + 1]);
                    }
                    assert(collected.push(status) + statuses_of(rest) =~= collected + statuses_of(
                        pending,
                    ));
                } else {
                    let i = choose|i: int| 0 <= i < pending.len() && !(#[trigger] pending[i] is Ok);
                    assert(rest[i - 1] == pending[i]);
                }
            },
            Err(_) => {},
        }
    }
}

/// A drain is exhaustive: from a queue into which nothing is pushed
/// meanwhile it returns every status that the queue holds, in the order in
/// which they were pushed, and leaves the queue empty, be the producer of
/// the queue there or gone. When the queue holds a failure, the drain fails
/// with `ConnectionLost` instead.
pub proof fn drain_takes_everything(pending: Seq<PipelineMessage>, gone: bool)
    ensures
        all_statuses(pending) ==> drain_of(quiet_answers(pending, gone)) == Ok::<
            Seq<MotionStatus>,
            MotionError,
        >(statuses_of(pending)) && left_by_drain(pending).len() == 0,
        !all_statuses(pending) ==> drain_of(quiet_answers(pending, gone)) == Err::<
            Seq<MotionStatus>,
            MotionError,
        >(MotionError::ConnectionLost),
{
    drain_of_quiet_queue(Seq::empty(), pending, gone);
    assert(Seq::<MotionStatus>::empty() + statuses_of(pending) =~= statuses_of(pending));
}

/// A drain of an empty queue is never an error, be the producer of the
/// queue there or gone: it returns the empty list.
pub proof fn empty_queue_is_no_error(gone: bool)
    ensures
        drain_of(quiet_answers(Seq::empty(), gone)) == Ok::<Seq<MotionStatus>, MotionError>(
            Seq::empty(),
        ),
        drain_of(seq![empty_answer(gone)]) == Ok::<Seq<MotionStatus>, MotionError>(Seq::empty()),
{
    drain_takes_everything(Seq::empty(), gone);
    assert(statuses_of(Seq::empty()) =~= Seq::<MotionStatus>::empty());
    assert(quiet_answers(Seq::empty(), gone) =~= seq![empty_answer(gone)]);
}

/// Of two drains in a row, with nothing pushed in between, the second
/// returns the empty list when the first has succeeded, whether the
/// producer of the queue is there or gone at either drain.
pub proof fn second_drain_is_empty(pending: Seq<PipelineMessage>, gone: bool, gone_then: bool)
    ensures
        drain_of(quiet_answers(pending, gone)) is Ok ==> drain_of(
            quiet_answers(left_by_drain(pending), gone_then),
        ) == Ok::<Seq<MotionStatus>, MotionError>(Seq::empty()),
{
    drain_takes_everything(pending, gone);
    empty_queue_is_no_error(gone_then);
    if drain_of(quiet_answers(pending, gone)) is Ok {
        assert(left_by_drain(pending) =~= Seq::<PipelineMessage>::empty());
    }
}

/// What is known last after two batches of statuses is what is known last
/// after both in one.
pub proof fn last_known_composes(
    previous: MotionStatus,
    first: Seq<MotionStatus>,
    second: Seq<MotionStatus>,
)
    ensures
        last_known(last_known(previous, first), second) == last_known(previous, first + second),
{
    if second.len() > 0 {
        assert((first + second).last() == second.last());
    } else {
        assert(first + second =~= first);
    }
}

/// A session says nothing about motion while it has been told of nothing
/// but statuses without a change. Once the status that it was told of last
/// is a start or a stop, it says that motion is active, or inactive.
pub proof fn indication_follows_last_status(previous: MotionStatus, observed: Seq<MotionStatus>)
    ensures
        (previous is NoChange && forall|i: int|
            0 <= i < observed.len() ==> #[trigger] observed[i] is NoChange) ==> last_known(
            previous,
            observed,
        ).indication() is None,
        observed.len() > 0 && observed.last() is Start ==> last_known(
            previous,
            observed,
        ).indication() == Some(true),
        observed.len() > 0 && observed.last() is Stop ==> last_known(
            previous,
            observed,
        ).indication() == Some(false),
{
}

} // verus!
