use reactor::{
    deadline_from, get_time_ms, time_to_ms, Event, Loop, PollError, Signal, Step, Timespec,
    TimerQueue, EAGAIN, EINTR, ETIMEDOUT, SIGCHLD, SIGINT, SIGQUIT, SIGTERM,
};

const SFD: i32 = 5;

#[test]
fn time_to_ms_truncates_nanoseconds() {
    assert_eq!(time_to_ms(Timespec { sec: 12, nsec: 345_999_999 }), 12_345);
    assert_eq!(time_to_ms(Timespec { sec: 0, nsec: 0 }), 0);
    assert_eq!(time_to_ms(Timespec { sec: -2, nsec: 800_000_000 }), -1_200);
}

#[test]
fn clock_reads_a_plausible_time() {
    // 2020-01-01 in milliseconds since the epoch.
    assert!(get_time_ms() > 1_577_836_800_000);
}

#[test]
fn deadline_adds_duration_and_saturates() {
    assert_eq!(deadline_from(1_000, 50), 1_050);
    assert_eq!(deadline_from(i64::MAX - 10, 50), i64::MAX);
    assert_eq!(deadline_from(-100, 40), -60);
}

#[test]
fn queue_hands_out_by_deadline() {
    let mut q: TimerQueue<&str> = TimerQueue::new();
    q.push(300, "c");
    q.push(100, "a");
    q.push(200, "b");
    assert_eq!(q.len(), 3);
    assert_eq!(q.earliest(), Some(100));
    assert_eq!(q.pop_earliest(), Some((100, "a")));
    assert_eq!(q.pop_earliest(), Some((200, "b")));
    assert_eq!(q.pop_earliest(), Some((300, "c")));
    assert_eq!(q.pop_earliest(), None);
    assert_eq!(q.earliest(), None);
}

#[test]
fn timeout_is_time_left_clamped() {
    let mut l: Loop<&str> = Loop::new(SFD);
    assert_eq!(l.timeout_at(0), -1);
    l.add_deadline(1_000, "t");
    assert_eq!(l.timeout_at(400), 600);
    assert_eq!(l.timeout_at(1_000), 0);
    assert_eq!(l.timeout_at(5_000), 0);
    l.add_deadline(i64::MAX, "far");
    assert_eq!(l.timeout_at(2_000), 0);
    let mut far: Loop<&str> = Loop::new(SFD);
    far.add_deadline(i64::MAX, "far");
    assert_eq!(far.timeout_at(0), i32::MAX);
}

#[test]
fn add_timeout_schedules_from_now() {
    let mut l: Loop<&str> = Loop::new(SFD);
    l.add_timeout(50, "A");
    let t = l.get_timeout();
    assert_eq!(l.timer_count(), 1);
    assert!(t <= 50 && t >= 0);
}

#[test]
fn timer_a_fires_once_due_and_not_before() {
    let mut l: Loop<&str> = Loop::new(SFD);
    let start: i64 = 10_000;
    l.add_deadline(deadline_from(start, 50), "A");
    assert_eq!(l.timeout_at(start), 50);
    assert_eq!(l.on_wait(-ETIMEDOUT, start + 44), Step::Again);
    assert_eq!(l.timer_count(), 1);
    assert_eq!(l.on_wait(-ETIMEDOUT, start + 50), Step::Fire(Event::Timeout("A")));
    assert_eq!(l.timer_count(), 0);
}

#[test]
fn readable_input_reported_before_far_timer() {
    let mut l: Loop<&str> = Loop::new(SFD);
    let start: i64 = 10_000;
    l.add_input(9, "B");
    l.add_deadline(deadline_from(start, 1_000), "Z");
    assert_eq!(l.timeout_at(start), 1_000);
    assert_eq!(l.on_wait(9, start + 10), Step::Fire(Event::Input("B")));
    assert_eq!(l.timer_count(), 1);
}

#[test]
fn interrupt_signal_preempts_pending_timer() {
    let mut l: Loop<&str> = Loop::new(SFD);
    let start: i64 = 10_000;
    l.add_deadline(deadline_from(start, 1_000), "T");
    assert_eq!(l.on_wait(SFD, start + 5), Step::ReadSignal);
    assert_eq!(l.on_signal(SIGINT), Step::Fire(Event::Signal(Signal::Terminate(SIGINT))));
    assert_eq!(l.timer_count(), 1);
}

#[test]
fn termination_wins_over_due_timer() {
    let mut l: Loop<&str> = Loop::new(SFD);
    l.add_deadline(100, "due");
    assert_eq!(l.on_wait(SFD, 200), Step::ReadSignal);
    assert_eq!(l.on_signal(SIGTERM), Step::Fire(Event::Signal(Signal::Terminate(SIGTERM))));
    assert_eq!(l.on_signal(SIGQUIT), Step::Fire(Event::Signal(Signal::Terminate(SIGQUIT))));
    assert_eq!(l.timer_count(), 1);
}

#[test]
fn tied_timers_each_fire_once() {
    let mut l: Loop<&str> = Loop::new(SFD);
    l.add_deadline(500, "X");
    l.add_deadline(500, "Y");
    let first = l.on_wait(-ETIMEDOUT, 500);
    let second = l.on_wait(-ETIMEDOUT, 500);
    let mut names = Vec::new();
    for s in [first, second] {
        match s {
            Step::Fire(Event::Timeout(n)) => names.push(n),
            other => panic!("unexpected step {:?}", other),
        }
    }
    names.sort();
    assert_eq!(names, vec!["X", "Y"]);
    assert_eq!(l.on_wait(-ETIMEDOUT, 500), Step::Again);
}

#[test]
fn timeouts_come_in_deadline_order() {
    let mut l: Loop<u32> = Loop::new(SFD);
    for (d, n) in [(40, 4), (10, 1), (30, 3), (20, 2)] {
        l.add_deadline(d, n);
    }
    let mut got = Vec::new();
    while let Step::Fire(Event::Timeout(n)) = l.on_wait(-ETIMEDOUT, 1_000) {
        got.push(n);
    }
    assert_eq!(got, vec![1, 2, 3, 4]);
}

#[test]
fn transient_outcomes_report_nothing() {
    let mut l: Loop<&str> = Loop::new(SFD);
    l.add_deadline(100, "A");
    assert_eq!(l.on_wait(-EINTR, 200), Step::Again);
    assert_eq!(l.on_signal(EINTR), Step::Again);
    assert_eq!(l.on_signal(EAGAIN), Step::Again);
    assert_eq!(l.timer_count(), 1);
    assert_eq!(l.on_wait(-ETIMEDOUT, 200), Step::Fire(Event::Timeout("A")));
}

#[test]
fn child_and_other_signals_loop_again() {
    let l: Loop<&str> = Loop::new(SFD);
    assert_eq!(l.on_signal(SIGCHLD), Step::Again);
    assert_eq!(l.on_signal(10), Step::Again);
}

#[test]
fn failures_are_fatal() {
    let mut l: Loop<&str> = Loop::new(SFD);
    assert_eq!(l.on_wait(-9, 0), Step::Fatal(PollError::WaitFailed(-9)));
    assert_eq!(l.on_signal(0), Step::Fatal(PollError::SignalReadFailed(0)));
    assert_eq!(l.on_signal(-1), Step::Fatal(PollError::SignalReadFailed(-1)));
    assert_eq!(l.on_wait(12, 0), Step::Fatal(PollError::UnknownInput(12)));
}

#[test]
fn timed_out_wait_with_no_timers_loops_again() {
    let mut l: Loop<&str> = Loop::new(SFD);
    assert_eq!(l.on_wait(-ETIMEDOUT, 0), Step::Again);
}

#[test]
fn input_registration_replaces_name() {
    let mut l: Loop<&str> = Loop::new(SFD);
    l.add_input(9, "old");
    l.add_input(9, "new");
    assert_eq!(l.on_wait(9, 0), Step::Fire(Event::Input("new")));
    assert_eq!(l.get_signal_fd(), SFD);
}
