use motion_bridge::clock::Clock;
use motion_bridge::debounce::{decide, time_race, Action, Debounce, Event, Phase, Target};
use motion_bridge::status::{MotionError, MotionStatus};

const SECOND: u64 = 1_000_000_000;

#[test]
fn target_is_held_by_its_own_status_only() {
    assert!(Target::Start.is_held_by(&MotionStatus::Start(0)));
    assert!(!Target::Start.is_held_by(&MotionStatus::Stop(0)));
    assert!(!Target::Start.is_held_by(&MotionStatus::NoChange(0)));
    assert!(Target::Stop.is_held_by(&MotionStatus::Stop(0)));
    assert!(!Target::Stop.is_held_by(&MotionStatus::Start(0)));
    assert!(!Target::Stop.is_held_by(&MotionStatus::NoChange(0)));
}

#[test]
fn target_is_broken_by_the_opposite_status_only() {
    assert!(Target::Start.is_broken_by(&MotionStatus::Stop(0)));
    assert!(!Target::Start.is_broken_by(&MotionStatus::Start(0)));
    assert!(!Target::Start.is_broken_by(&MotionStatus::NoChange(0)));
    assert!(Target::Stop.is_broken_by(&MotionStatus::Start(0)));
    assert!(!Target::Stop.is_broken_by(&MotionStatus::Stop(0)));
    assert!(!Target::Stop.is_broken_by(&MotionStatus::NoChange(0)));
}

#[test]
fn decide_finishes_when_held_long_enough() {
    let decided = decide(Target::Stop, 5 * SECOND, Some(MotionStatus::Stop(SECOND)), 6 * SECOND);
    assert_eq!(decided, (Phase::Stable, Action::Finish));
    let later = decide(Target::Stop, 5 * SECOND, Some(MotionStatus::Stop(SECOND)), 60 * SECOND);
    assert_eq!(later, (Phase::Stable, Action::Finish));
}

#[test]
fn decide_races_for_the_rest_of_the_time() {
    let decided = decide(Target::Stop, 5 * SECOND, Some(MotionStatus::Stop(SECOND)), 3 * SECOND);
    assert_eq!(
        decided,
        (Phase::Racing { since: SECOND }, Action::Race { timeout: 3 * SECOND })
    );
    let almost = decide(Target::Stop, 5 * SECOND, Some(MotionStatus::Stop(SECOND)), 6 * SECOND - 1);
    assert_eq!(almost, (Phase::Racing { since: SECOND }, Action::Race { timeout: 1 }));
}

#[test]
fn decide_races_for_the_whole_time_on_a_status_from_the_future() {
    let decided = decide(Target::Start, 5, Some(MotionStatus::Start(100)), 10);
    assert_eq!(decided, (Phase::Racing { since: 100 }, Action::Race { timeout: 5 }));
}

#[test]
fn decide_waits_without_the_target_status() {
    let waiting = (Phase::Waiting, Action::AwaitNext);
    assert_eq!(decide(Target::Stop, 5, None, 100), waiting);
    assert_eq!(decide(Target::Stop, 5, Some(MotionStatus::Start(1)), 100), waiting);
    assert_eq!(decide(Target::Stop, 5, Some(MotionStatus::NoChange(1)), 100), waiting);
    assert_eq!(decide(Target::Start, 0, Some(MotionStatus::Stop(1)), 100), waiting);
    assert_eq!(decide(Target::Start, 0, None, 100), waiting);
}

#[test]
fn await_stop_while_motion_is_active_has_to_see_a_stop() {
    let (mut wait, action) = Debounce::new(Target::Stop, 2 * SECOND, Some(MotionStatus::Start(0)), SECOND);
    assert_eq!(action, Action::AwaitNext);
    assert_eq!(wait.phase, Phase::Waiting);
    assert_eq!(wait.step(Event::Status(MotionStatus::NoChange(SECOND)), SECOND), Action::AwaitNext);
    assert_eq!(wait.step(Event::Status(MotionStatus::Start(SECOND)), 2 * SECOND), Action::AwaitNext);
    assert_eq!(wait.step(Event::TimerFired, 50 * SECOND), Action::AwaitNext);
    assert_eq!(wait.phase, Phase::Waiting);
    let action = wait.step(Event::Status(MotionStatus::Stop(3 * SECOND)), 3 * SECOND);
    assert_eq!(action, Action::Race { timeout: 2 * SECOND });
    assert_eq!(wait.step(Event::TimerFired, 5 * SECOND), Action::Finish);
    assert_eq!(wait.phase, Phase::Stable);
}

#[test]
fn start_during_the_race_restarts_the_wait() {
    let (mut wait, action) = Debounce::new(Target::Stop, 10, Some(MotionStatus::Stop(100)), 104);
    assert_eq!(action, Action::Race { timeout: 6 });
    assert_eq!(wait.step(Event::Status(MotionStatus::Start(105)), 106), Action::AwaitNext);
    assert_eq!(wait.phase, Phase::Waiting);
    // Long after the first stop, but the stop was broken: nothing but a new
    // stop ends the wait.
    assert_eq!(wait.step(Event::Status(MotionStatus::NoChange(200)), 200), Action::AwaitNext);
    assert_eq!(wait.step(Event::Status(MotionStatus::Stop(300)), 303), Action::Race { timeout: 7 });
    assert_eq!(wait.phase, Phase::Racing { since: 300 });
    assert_eq!(wait.step(Event::TimerFired, 310), Action::Finish);
}

#[test]
fn race_ignores_what_does_not_break_it() {
    let (mut wait, action) = Debounce::new(Target::Stop, 10, Some(MotionStatus::Stop(100)), 104);
    assert_eq!(action, Action::Race { timeout: 6 });
    assert_eq!(wait.step(Event::Status(MotionStatus::NoChange(105)), 105), Action::Listen);
    assert_eq!(wait.step(Event::Status(MotionStatus::Stop(106)), 106), Action::Listen);
    assert_eq!(wait.phase, Phase::Racing { since: 100 });
    assert_eq!(wait.step(Event::TimerFired, 110), Action::Finish);
}

#[test]
fn await_start_mirrors_await_stop() {
    let (mut wait, action) = Debounce::new(Target::Start, 10, Some(MotionStatus::Start(100)), 101);
    assert_eq!(action, Action::Race { timeout: 9 });
    assert_eq!(wait.step(Event::Status(MotionStatus::Stop(102)), 102), Action::AwaitNext);
    assert_eq!(wait.step(Event::Status(MotionStatus::Start(103)), 113), Action::Finish);
    assert_eq!(wait.phase, Phase::Stable);
}

#[test]
fn await_start_without_minimum_returns_on_a_past_start() {
    let (wait, action) = Debounce::new(Target::Start, 0, Some(MotionStatus::Start(100)), 100);
    assert_eq!(action, Action::Finish);
    assert_eq!(wait.phase, Phase::Stable);
    let (_, early) = Debounce::new(Target::Start, 0, Some(MotionStatus::Start(100)), 3);
    assert_eq!(early, Action::Finish);
}

#[test]
fn await_start_without_minimum_returns_on_a_future_start() {
    let (mut wait, action) = Debounce::new(Target::Start, 0, None, 100);
    assert_eq!(action, Action::AwaitNext);
    assert_eq!(wait.step(Event::Status(MotionStatus::NoChange(101)), 101), Action::AwaitNext);
    assert_eq!(wait.step(Event::Status(MotionStatus::Stop(102)), 102), Action::AwaitNext);
    assert_eq!(wait.step(Event::Status(MotionStatus::Start(103)), 103), Action::Finish);
}

#[test]
fn stop_shortly_after_start_is_measured_from_the_stop() {
    // Motion starts at t0 and stops a little later; the wait for a stop of
    // five seconds begins two seconds after the stop.
    let t0 = 10 * SECOND;
    let stopped = t0 + SECOND;
    let called = stopped + 2 * SECOND;
    let (mut wait, action) = Debounce::new(Target::Stop, 5 * SECOND, Some(MotionStatus::Stop(stopped)), called);
    // Three seconds are left, not five: the time counts from the stop.
    assert_eq!(action, Action::Race { timeout: 3 * SECOND });
    assert_eq!(wait.phase, Phase::Racing { since: stopped });
    assert_eq!(wait.step(Event::TimerFired, stopped + 5 * SECOND), Action::Finish);
    // Called once the five seconds are over, the wait returns at once.
    let (_, late) = Debounce::new(Target::Stop, 5 * SECOND, Some(MotionStatus::Stop(stopped)), stopped + 5 * SECOND);
    assert_eq!(late, Action::Finish);
}

#[test]
fn failure_ends_a_race() {
    let (mut wait, _) = Debounce::new(Target::Stop, 10, Some(MotionStatus::Stop(100)), 104);
    assert_eq!(
        wait.step(Event::Failure(MotionError::ConnectionLost), 105),
        Action::Fail(MotionError::ConnectionLost)
    );
    assert_eq!(wait.phase, Phase::Failed(MotionError::ConnectionLost));
}

#[test]
fn failure_ends_a_wait() {
    let (mut wait, _) = Debounce::new(Target::Start, 10, None, 0);
    assert_eq!(
        wait.step(Event::Failure(MotionError::SessionClosed), 1),
        Action::Fail(MotionError::SessionClosed)
    );
    assert_eq!(wait.phase, Phase::Failed(MotionError::SessionClosed));
}

#[test]
fn finished_wait_stays_finished() {
    let (mut wait, action) = Debounce::new(Target::Stop, 0, Some(MotionStatus::Stop(1)), 1);
    assert_eq!(action, Action::Finish);
    assert_eq!(wait.step(Event::Status(MotionStatus::Start(2)), 2), Action::Finish);
    assert_eq!(wait.step(Event::Failure(MotionError::ConnectionLost), 3), Action::Finish);
    assert_eq!(wait.step(Event::TimerFired, 4), Action::Finish);
    assert_eq!(wait.phase, Phase::Stable);
}

#[test]
fn failed_wait_stays_failed() {
    let (mut wait, _) = Debounce::new(Target::Stop, 10, None, 0);
    wait.step(Event::Failure(MotionError::ConnectionLost), 1);
    let failed = Action::Fail(MotionError::ConnectionLost);
    assert_eq!(wait.step(Event::Status(MotionStatus::Stop(2)), 20), failed);
    assert_eq!(wait.step(Event::TimerFired, 30), failed);
    assert_eq!(wait.step(Event::Failure(MotionError::SessionClosed), 40), failed);
}

#[test]
fn new_keeps_target_and_minimum() {
    let (wait, _) = Debounce::new(Target::Start, 42, None, 7);
    assert_eq!(wait.target, Target::Start);
    assert_eq!(wait.min_duration, 42);
    assert_eq!(wait, Debounce { target: Target::Start, min_duration: 42, phase: Phase::Waiting });
}

#[test]
fn longest_minimum_does_not_overflow() {
    let (_, action) = Debounce::new(Target::Stop, u64::MAX, Some(MotionStatus::Stop(0)), 1);
    assert_eq!(action, Action::Race { timeout: u64::MAX - 1 });
    let (_, done) = Debounce::new(Target::Stop, u64::MAX, Some(MotionStatus::Stop(0)), u64::MAX);
    assert_eq!(done, Action::Finish);
}

#[test]
fn step_now_reads_the_clock() {
    let clock = Clock::start();
    let hour: u64 = 3_600_000_000_000;
    let (mut wait, action) = Debounce::new(Target::Stop, hour, None, clock.now());
    assert_eq!(action, Action::AwaitNext);
    let stopped = clock.now();
    match wait.step_now(Event::Status(MotionStatus::Stop(stopped)), &clock) {
        Action::Race { timeout } => assert!(timeout <= hour && timeout > hour / 2),
        other => panic!("no race: {:?}", other),
    }
    assert_eq!(wait.phase, Phase::Racing { since: stopped });
    // The hour is not over by the clock, whatever a timer says.
    match wait.step_now(Event::TimerFired, &clock) {
        Action::Race { timeout } => assert!(timeout <= hour && timeout > hour / 2),
        other => panic!("no race: {:?}", other),
    }
    assert_eq!(wait.phase, Phase::Racing { since: stopped });
}

#[test]
fn timer_that_fires_too_soon_does_not_end_the_wait() {
    let (mut wait, action) = Debounce::new(Target::Stop, 10, Some(MotionStatus::Stop(100)), 104);
    assert_eq!(action, Action::Race { timeout: 6 });
    assert_eq!(wait.step(Event::TimerFired, 107), Action::Race { timeout: 3 });
    assert_eq!(wait.phase, Phase::Racing { since: 100 });
    assert_eq!(wait.step(Event::TimerFired, 109), Action::Race { timeout: 1 });
    assert_eq!(wait.step(Event::TimerFired, 110), Action::Finish);
    assert_eq!(wait.phase, Phase::Stable);
}

#[test]
fn timer_for_a_status_from_the_future_counts_from_the_status() {
    let (mut wait, action) = Debounce::new(Target::Start, 5, Some(MotionStatus::Start(100)), 10);
    assert_eq!(action, Action::Race { timeout: 5 });
    assert_eq!(wait.step(Event::TimerFired, 15), Action::Race { timeout: 5 });
    assert_eq!(wait.step(Event::TimerFired, 103), Action::Race { timeout: 2 });
    assert_eq!(wait.step(Event::TimerFired, 105), Action::Finish);
}

#[test]
fn timer_that_fires_late_ends_the_wait() {
    let (mut wait, _) = Debounce::new(Target::Stop, 10, Some(MotionStatus::Stop(100)), 104);
    assert_eq!(wait.step(Event::TimerFired, 5_000), Action::Finish);
    assert_eq!(wait.phase, Phase::Stable);
}

#[test]
fn time_race_finishes_or_races_for_the_rest() {
    assert_eq!(time_race(10, 100, 110), (Phase::Stable, Action::Finish));
    assert_eq!(time_race(10, 100, 109), (Phase::Racing { since: 100 }, Action::Race { timeout: 1 }));
    assert_eq!(time_race(10, 100, 50), (Phase::Racing { since: 100 }, Action::Race { timeout: 10 }));
    assert_eq!(time_race(0, 100, 50), (Phase::Stable, Action::Finish));
}
