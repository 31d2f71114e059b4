//! What holds of every list of alarm events and of every run of the
//! listener.

use crate::listener::{classified, message_for, verdict, AlarmEvent, Listener, Received};
use crate::status::{MotionStatus, PipelineMessage};
use vstd::prelude::*;

verus! {

/// What the transport hands to the listener, with the time at which it does.
pub struct Arrival {
    /// What was received.
    pub received: Received,
    /// The time at which it was received.
    pub now: u64,
}

/// The messages that `listener` pushes for `arrivals` while every push is
/// delivered: one for each arrival, in the order of arrival, the failure of
/// the transport being the last.
pub open spec fn pushed(listener: Listener, arrivals: Seq<Arrival>) -> Seq<PipelineMessage>
    decreases arrivals.len(),
{
    if arrivals.len() == 0 {
        Seq::empty()
    } else {
        let message = message_for(arrivals[0].received, listener.channel_id, arrivals[0].now);
        let next = listener.received(arrivals[0].received);
        if next.goes_on(true) {
            seq![message] + pushed(next, arrivals.skip(1))
        } else {
            seq![message]
        }
    }
}

/// Whether the entry of `events` at `i` is the first about `channel_id`.
pub open spec fn first_about(events: Seq<AlarmEvent>, channel_id: u8, i: int) -> bool {
    0 <= i < events.len() && events[i].channel_id == channel_id && forall|j: int|
        0 <= j < i ==> (#[trigger] events[j]).channel_id != channel_id
}

/// An alarm event list is classified by its first entry about the channel,
/// and by that entry alone: a start when the entry has the code `MD`, a
/// stop when it has the code `none`, and no change when it has another
/// code. A list without an entry about the channel is no change. The
/// status carries the time of arrival.
pub proof fn first_entry_about_channel_classifies(
    events: Seq<AlarmEvent>,
    channel_id: u8,
    now: u64,
)
    ensures
        classified(events, channel_id, now).time() == now,
        forall|i: int| #[trigger]
            first_about(events, channel_id, i) ==> classified(events, channel_id, now) == verdict(
                events[i],
                now,
            ),
        (forall|i: int| 0 <= i < events.len() ==> (#[trigger] events[i]).channel_id != channel_id)
            ==> classified(events, channel_id, now) == MotionStatus::NoChange(now),
    decreases events.len(),
{
    if events.len() == 0 {
    } else if events[0].channel_id == channel_id {
        assert forall|i: int| #[trigger] first_about(events, channel_id, i) implies i == 0 by {
            if i > 0 {
                assert(events[0].channel_id != channel_id);
            }
        }
    } else {
        let rest = events.skip(1);
        first_entry_about_channel_classifies(rest, channel_id, now);
        assert forall|i: int| #[trigger] first_about(events, channel_id, i) implies classified(
            events,
            channel_id,
            now,
        ) == verdict(events[i], now) by {
            assert(i > 0);
            assert(rest[i - 1] == events[i]);
            assert forall|j: int| 0 <= j < i - 1 implies (#[trigger] rest[j]).channel_id
                != channel_id by {
                assert(rest[j] == events[j + 1]);
            }
            assert(first_about(rest, channel_id, i - 1));
        }
        if forall|i: int| 0 <= i < events.len() ==> (#[trigger] events[i]).channel_id != channel_id {
            assert forall|i: int| 0 <= i < rest.len() implies (#[trigger] rest[i]).channel_id
                != channel_id by {
                assert(rest[i] == events[i + 1]);
            }
        }
    }
}

/// The codes `MD` and `none` are told apart, and from every other code: an
/// entry is a start exactly for the one, and a stop exactly for the other.
pub proof fn verdict_goes_by_code(event: AlarmEvent, now: u64)
    ensures
        verdict(event, now) == MotionStatus::Start(now) <==> event.status@ == "MD"@,
        verdict(event, now) == MotionStatus::Stop(now) <==> event.status@ == "none"@,
        verdict(event, now) == MotionStatus::NoChange(now) <==> (event.status@ != "MD"@
            && event.status@ != "none"@),
{
    reveal_strlit("MD");
    reveal_strlit("none");
    assert("MD"@.len() != "none"@.len());
}

/// The listener pushes, in the order of arrival, one message for each thing
/// that it receives: for a notification the status that it is classified as,
/// with the time of its arrival. The failure of the transport is pushed
/// once, as the last message: nothing that arrives after it is pushed.
pub proof fn pushes_follow_arrivals(listener: Listener, arrivals: Seq<Arrival>)
    requires
        !listener.failed,
    ensures
        pushed(listener, arrivals).len() <= arrivals.len(),
        forall|i: int|
            0 <= i < pushed(listener, arrivals).len() ==> #[trigger] pushed(listener, arrivals)[i]
                == message_for(arrivals[i].received, listener.channel_id, arrivals[i].now),
        forall|i: int|
            0 <= i < pushed(listener, arrivals).len() - 1 ==> #[trigger] pushed(
                listener,
                arrivals,
            )[i] is Ok,
        pushed(listener, arrivals).len() < arrivals.len() ==> pushed(listener, arrivals).last() is Err,
        (forall|i: int| 0 <= i < arrivals.len() ==> !(#[trigger] arrivals[i].received is Failed))
            ==> pushed(listener, arrivals).len() == arrivals.len(),
    decreases arrivals.len(),
{
    if arrivals.len() > 0 {
        let next = listener.received(arrivals[0].received);
        let rest = arrivals.skip(1);
        if next.goes_on(true) {
            pushes_follow_arrivals(next, rest);
            let tail = pushed(next, rest);
            let all = pushed(listener, arrivals);
            assert(all.len() == tail.len() + 1);
            assert forall|i: int| 0 <= i < all.len() implies #[trigger] all[i] == message_for(
                arrivals[i].received,
                listener.channel_id,
                arrivals[i].now,
            ) by {
                if i > 0 {
                    assert(all[i] == tail[i - 1]);
                    assert(rest[i - 1] == arrivals[i]);
                }
            }
            assert forall|i: int| 0 <= i < all.len() - 1 implies #[trigger] all[i] is Ok by {
                if i > 0 {
                    assert(all[i] == tail[i - 1]);
                }
            }
            if all.len() < arrivals.len() {
                assert(all.last() == tail.last());
            }
            if forall|i: int| 0 <= i < arrivals.len() ==> !(#[trigger] arrivals[i].received is Failed) {
                assert forall|i: int| 0 <= i < rest.len() implies !(#[trigger] rest[i].received is Failed) by {
                    assert(rest[i] == arrivals[i + 1]);
                }
            }
        } else {
            assert(arrivals[0].received is Failed);
        }
    }
}

} // verus!
