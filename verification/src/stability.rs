//! What holds of every wait of the debounce engine.

use crate::debounce::{decision, held_long_enough, Action, Debounce, Event, Phase, Target};
use crate::status::{elapsed, MotionError, MotionStatus};
use vstd::prelude::*;

verus! {

/// What the caller of the engine reports, with the time of the report.
pub struct Report {
    /// What has happened.
    pub event: Event,
    /// The time at which it is reported.
    pub now: u64,
}

impl Debounce {
    /// The wait after `reports` have been handed to it in order.
    pub open spec fn run(self, reports: Seq<Report>) -> Debounce
        decreases reports.len(),
    {
        if reports.len() == 0 {
            self
        } else {
            self.run(reports.drop_last()).after(reports.last().event, reports.last().now).0
        }
    }
}

/// The statuses among `reports`, in order.
pub open spec fn statuses(reports: Seq<Report>) -> Seq<MotionStatus>
    decreases reports.len(),
{
    if reports.len() == 0 {
        Seq::empty()
    } else {
        match reports.last().event {
            Event::Status(status) => statuses(reports.drop_last()).push(status),
            _ => statuses(reports.drop_last()),
        }
    }
}

/// Every status that a wait has been told of: the last of the backlog with
/// which it began, if there was one, and then those reported.
pub open spec fn seen(last: Option<MotionStatus>, reports: Seq<Report>) -> Seq<MotionStatus> {
    match last {
        Some(status) => seq![status] + statuses(reports),
        None => statuses(reports),
    }
}

/// Whether `seen` holds a status that entered the target state long enough
/// before `now`, with no status after it that entered the opposite state.
pub open spec fn held_without_break(
    target: Target,
    min_duration: u64,
    seen: Seq<MotionStatus>,
    now: u64,
) -> bool {
    exists|i: int|
        0 <= i < seen.len() && target.held_by(#[trigger] seen[i]) && held_long_enough(
            min_duration,
            seen[i].time(),
            now,
        ) && forall|j: int| i < j < seen.len() ==> !target.broken_by(#[trigger] seen[j])
}

/// Whether a race that `engine` is in goes back to a status in `seen` that
/// entered the target state at the time the race counts from, with no status
/// after it that entered the opposite state.
pub open spec fn race_founded(engine: Debounce, seen: Seq<MotionStatus>) -> bool {
    engine.phase matches Phase::Racing { since } ==> exists|i: int|
        0 <= i < seen.len() && engine.target.held_by(#[trigger] seen[i]) && seen[i].time() == since
            && forall|j: int| i < j < seen.len() ==> !engine.target.broken_by(#[trigger] seen[j])
}

/// The engine tells its caller to return with success exactly when the wait
/// has turned stable, and to return with a failure exactly when the wait
/// has failed with it.
pub proof fn action_tells_phase(
    engine: Debounce,
    event: Event,
    now: u64,
    last: Option<MotionStatus>,
)
    ensures
        engine.after(event, now).1 == Action::Finish <==> engine.after(event, now).0.phase
            == Phase::Stable,
        forall|e: MotionError|
            engine.after(event, now).1 == Action::Fail(e) <==> engine.after(event, now).0.phase
                == Phase::Failed(e),
        Debounce::begun(engine.target, engine.min_duration, last, now).1 == Action::Finish
            <==> Debounce::begun(engine.target, engine.min_duration, last, now).0.phase
            == Phase::Stable,
{
}

/// A wait for a state that the last known status has not entered does not
/// end, nor start a timer: it waits for the next status. So a wait for a
/// stop that begins while motion is active has to see a stop first.
pub proof fn target_must_be_seen(
    target: Target,
    min_duration: u64,
    last: Option<MotionStatus>,
    now: u64,
)
    requires
        last matches Some(status) ==> !target.held_by(status),
    ensures
        Debounce::begun(target, min_duration, last, now).0.phase == Phase::Waiting,
        Debounce::begun(target, min_duration, last, now).1 == Action::AwaitNext,
{
}

/// A wait ends on a decision only when the status decided on entered the
/// target state and has held it long enough by its own time.
pub proof fn decision_finishes_when_held(
    target: Target,
    min_duration: u64,
    last: Option<MotionStatus>,
    now: u64,
)
    ensures
        decision(target, min_duration, last, now).1 == Action::Finish <==> (last matches Some(
            status,
        ) && target.held_by(status) && held_long_enough(min_duration, status.time(), now)),
        decision(target, min_duration, last, now).1 is Race <==> (last matches Some(status)
            && target.held_by(status) && !held_long_enough(min_duration, status.time(), now)),
{
}

/// The timer of a race is set for what is left of the minimum time. A
/// timer that keeps its time ends the wait when it fires: at any time that
/// lies the timeout or more after the decision, the state has been held
/// long enough, counted from the time that the status carries, and the
/// engine tells its caller to return with success. The status is taken not
/// to come from the future.
pub proof fn kept_timer_ends_the_wait(
    target: Target,
    min_duration: u64,
    status: MotionStatus,
    now: u64,
    later: u64,
)
    requires
        status.time() <= now,
        decision(target, min_duration, Some(status), now).1 matches Action::Race { timeout }
            && later >= now + timeout,
    ensures
        decision(target, min_duration, Some(status), now).1 == (Action::Race {
            timeout: (min_duration - (now - status.time())) as u64,
        }),
        held_long_enough(min_duration, status.time(), later),
        ({
            let racing = Debounce::begun(target, min_duration, Some(status), now).0;
            racing.phase == (Phase::Racing { since: status.time() }) && racing.after(
                Event::TimerFired,
                later,
            ) == (racing.at(Phase::Stable), Action::Finish)
        }),
{
}

/// A timer that fires too soon does not end the wait: at a time at which
/// the state has not been held long enough the race goes on, counting from
/// the same status, with a timer for what is left then.
pub proof fn early_timer_races_on(engine: Debounce, now: u64)
    requires
        engine.phase is Racing,
        !held_long_enough(engine.min_duration, engine.phase->since, now),
    ensures
        engine.after(Event::TimerFired, now) == (
            engine,
            Action::Race {
                timeout: (engine.min_duration - elapsed(now, engine.phase->since)) as u64,
            },
        ),
{
}

/// A report ends a wait with success only at a time at which the target
/// state has been held long enough: in a race the state that the race
/// counts from, and while waiting the status that is reported.
pub proof fn step_finishes_when_held(engine: Debounce, event: Event, now: u64)
    ensures
        engine.phase matches Phase::Racing { since } ==> (engine.after(event, now).1
            == Action::Finish <==> event is TimerFired && held_long_enough(
            engine.min_duration,
            since,
            now,
        )),
        engine.phase is Waiting ==> (engine.after(event, now).1 == Action::Finish <==> (
        event matches Event::Status(status) && engine.target.held_by(status) && held_long_enough(
            engine.min_duration,
            status.time(),
            now,
        ))),
{
}

/// A status that enters the opposite state during a race ends the race: the
/// wait goes back to waiting for the next status, and from there only a
/// status that has itself held the target state long enough ends it.
pub proof fn break_restarts_wait(engine: Debounce, status: MotionStatus, now: u64, next: Event, then:
    u64)
    requires
        engine.phase is Racing,
        engine.target.broken_by(status),
    ensures
        engine.after(Event::Status(status), now) == (engine.at(Phase::Waiting), Action::AwaitNext),
        ({
            let restarted = engine.after(Event::Status(status), now).0;
            restarted.after(next, then).1 == Action::Finish ==> (next matches Event::Status(s)
                && engine.target.held_by(s) && held_long_enough(
                engine.min_duration,
                s.time(),
                then,
            ))
        }),
{
}

/// With no minimum time a wait never races a timer: it ends as soon as it
/// is told of a status that entered the target state, be it the last of the
/// backlog when the wait begins or a status that arrives while it waits,
/// whatever the time.
pub proof fn no_minimum_ends_at_once(target: Target, status: MotionStatus, now: u64)
    requires
        target.held_by(status),
    ensures
        Debounce::begun(target, 0, Some(status), now).1 == Action::Finish,
        (Debounce { target, min_duration: 0, phase: Phase::Waiting }).after(
            Event::Status(status),
            now,
        ).1 == Action::Finish,
        forall|last: Option<MotionStatus>| !(#[trigger] Debounce::begun(target, 0, last, now).0.phase is Racing),
        forall|event: Event|
            !((Debounce { target, min_duration: 0, phase: Phase::Waiting }).after(event, now).0.phase is Racing),
{
}

/// With no minimum time, a wait whose pipeline has not failed has succeeded
/// as soon as it has been told of a status that entered the target state,
/// and only then: until then it waits for the next status.
pub proof fn no_minimum_ends_on_first_sight(
    target: Target,
    last: Option<MotionStatus>,
    now: u64,
    reports: Seq<Report>,
)
    requires
        forall|k: int| 0 <= k < reports.len() ==> !(#[trigger] reports[k].event is Failure),
    ensures
        ({
            let end = Debounce::begun(target, 0, last, now).0.run(reports);
            let told = seen(last, reports);
            if exists|i: int| 0 <= i < told.len() && target.held_by(#[trigger] told[i]) {
                end.phase is Stable
            } else {
                end.phase is Waiting
            }
        }),
    decreases reports.len(),
{
    let begun = Debounce::begun(target, 0, last, now).0;
    let told = seen(last, reports);
    if reports.len() == 0 {
        match last {
            Some(status) => {
                assert(told =~= seq![status]);
                assert(told[0] == status);
            },
            None => {
                assert(told.len() == 0);
            },
        }
    } else {
        let earlier = reports.drop_last();
        assert forall|k: int| 0 <= k < earlier.len() implies !(#[trigger] earlier[k].event
            is Failure) by {
            assert(earlier[k] == reports[k]);
        }
        no_minimum_ends_on_first_sight(target, last, now, earlier);
        races_are_founded(target, 0, last, now, earlier);
        seen_grows(last, reports);
        let known = seen(last, earlier);
        assert(!(reports.last().event is Failure));
        if exists|i: int| 0 <= i < known.len() && target.held_by(#[trigger] known[i]) {
            let i = choose|i: int| 0 <= i < known.len() && target.held_by(#[trigger] known[i]);
            assert(told[i] == known[i]);
        } else {
            match reports.last().event {
                Event::Status(status) => {
                    assert(told == known.push(status));
                    if target.held_by(status) {
                        assert(told[told.len() - 1] == status);
                    } else {
                        assert forall|i: int| 0 <= i < told.len() implies !target.held_by(
                            #[trigger] told[i],
                        ) by {
                            if i < known.len() {
                                assert(told[i] == known[i]);
                            }
                        }
                    }
                },
                _ => {
                    assert(told == known);
                },
            }
        }
    }
}

/// The statuses among `reports` grow by the status of the last report.
proof fn seen_grows(last: Option<MotionStatus>, reports: Seq<Report>)
    requires
        reports.len() > 0,
    ensures
        seen(last, reports) == match reports.last().event {
            Event::Status(status) => seen(last, reports.drop_last()).push(status),
            _ => seen(last, reports.drop_last()),
        },
{
    match reports.last().event {
        Event::Status(status) => {
            match last {
                Some(first) => {
                    assert(seq![first] + statuses(reports.drop_last()).push(status) =~= (seq![first]
                        + statuses(reports.drop_last())).push(status));
                },
                None => {},
            }
        },
        _ => {},
    }
}

/// Every race of a wait goes back to a status that the wait was told of:
/// one that entered the target state at the time from which the race
/// counts, and after which no status entered the opposite state.
pub proof fn races_are_founded(
    target: Target,
    min_duration: u64,
    last: Option<MotionStatus>,
    now: u64,
    reports: Seq<Report>,
)
    ensures
        race_founded(
            Debounce::begun(target, min_duration, last, now).0.run(reports),
            seen(last, reports),
        ),
        Debounce::begun(target, min_duration, last, now).0.run(reports).target == target,
        Debounce::begun(target, min_duration, last, now).0.run(reports).min_duration
            == min_duration,
    decreases reports.len(),
{
    let begun = Debounce::begun(target, min_duration, last, now).0;
    if reports.len() == 0 {
        if begun.phase is Racing {
            let all = seen(last, reports);
            assert(all =~= seq![last->0]);
            assert(target.held_by(all[0]));
        }
    } else {
        let earlier = reports.drop_last();
        races_are_founded(target, min_duration, last, now, earlier);
        seen_grows(last, reports);
        let before = begun.run(earlier);
        let after = begun.run(reports);
        let known = seen(last, earlier);
        let all = seen(last, reports);
        if after.phase is Racing {
            match reports.last().event {
                Event::Status(status) => {
                    assert(all == known.push(status));
                    if before.phase is Racing {
                        let i = choose|i: int|
                            0 <= i < known.len() && target.held_by(#[trigger] known[i])
                                && known[i].time() == before.phase->since && forall|j: int|
                                i < j < known.len() ==> !target.broken_by(#[trigger] known[j]);
                        assert(all[i] == known[i]);
                        assert forall|j: int| i < j < all.len() implies !target.broken_by(
                            #[trigger] all[j],
                        ) by {
                            if j < known.len() {
                                assert(all[j] == known[j]);
                            }
                        }
                    } else {
                        let i = all.len() - 1;
                        assert(all[i] == status);
                        assert(target.held_by(all[i]));
                    }
                },
                _ => {
                    assert(all == known);
                },
            }
        }
    }
}

/// A wait succeeds only once the target state has been held, without a
/// break, for the minimum time: when the wait turns stable on a report,
/// the statuses it has been told of hold one that entered the target state
/// that long before the report, by the time that the status carries, and
/// none after it that entered the opposite state. This holds whatever is
/// reported and whenever: of a timer that fires too soon as well, and of
/// statuses that carry any time.
pub proof fn success_means_held(
    target: Target,
    min_duration: u64,
    last: Option<MotionStatus>,
    now: u64,
    reports: Seq<Report>,
)
    ensures
        ({
            let begun = Debounce::begun(target, min_duration, last, now).0;
            &&& reports.len() == 0 && begun.phase is Stable ==> held_without_break(
                target,
                min_duration,
                seen(last, reports),
                now,
            )
            &&& reports.len() > 0 && !(begun.run(reports.drop_last()).phase is Stable) && begun.run(
                reports,
            ).phase is Stable ==> held_without_break(
                target,
                min_duration,
                seen(last, reports),
                reports.last().now,
            )
        }),
{
    let begun = Debounce::begun(target, min_duration, last, now).0;
    let all = seen(last, reports);
    if reports.len() == 0 {
        if begun.phase is Stable {
            assert(all =~= seq![last->0]);
            assert(target.held_by(all[0]));
        }
    } else {
        let earlier = reports.drop_last();
        races_are_founded(target, min_duration, last, now, earlier);
        seen_grows(last, reports);
        let before = begun.run(earlier);
        let known = seen(last, earlier);
        let at = reports.last().now;
        if !(before.phase is Stable) && begun.run(reports).phase is Stable {
            match reports.last().event {
                Event::Status(status) => {
                    assert(before.phase is Waiting);
                    assert(all == known.push(status));
                    let i = all.len() - 1;
                    assert(all[i] == status);
                    assert(target.held_by(all[i]));
                },
                _ => {
                    assert(before.phase is Racing);
                    assert(all == known);
                    let i = choose|i: int|
                        0 <= i < known.len() && target.held_by(#[trigger] known[i])
                            && known[i].time() == before.phase->since && forall|j: int|
                            i < j < known.len() ==> !target.broken_by(#[trigger] known[j]);
                    assert(held_long_enough(min_duration, all[i].time(), at));
                },
            }
        }
    }
}

} // verus!
