use chronograph::{Chronograph, Status};
use std::time::{Duration, Instant};

fn wait(milli_seconds: u64) {
    let begin = Instant::now();
    while begin.elapsed() < Duration::from_millis(milli_seconds) {
        std::hint::spin_loop();
    }
}

fn millis(count: u64) -> u128 {
    Duration::from_millis(count).as_nanos()
}

#[test]
fn clock_start_then_stop_measures_the_wait() {
    let mut fixture = Chronograph::new();
    let before = Instant::now();
    assert!(matches!(fixture.start(), Ok(0)));
    assert_eq!(fixture.state(), Status::Running);

    wait(25);

    let actual = fixture.stop();
    let around = before.elapsed().as_nanos();
    assert_eq!(fixture.state(), Status::Stopped);
    assert!(actual >= millis(25));
    assert!(actual <= around);

    wait(5);
    let other = fixture.stop();
    assert_eq!(actual, other);
    assert_eq!(fixture.elapsed(), actual);
    assert_eq!(fixture.accumulated(), actual);
}

#[test]
fn clock_second_start_fails_and_keeps_the_run() {
    let mut fixture = Chronograph::new();
    assert_eq!(fixture.start().unwrap(), 0);
    let began = fixture.pivot();
    assert!(began.is_some());

    wait(10);

    let refusal = fixture.start().unwrap_err();
    assert_eq!(refusal.msg(), "Already running.");
    assert_eq!(fixture.state(), Status::Running);
    assert_eq!(fixture.pivot(), began);
    assert!(fixture.elapsed() >= millis(10));

    wait(10);

    let act = fixture.stop();
    assert_eq!(fixture.state(), Status::Stopped);
    assert!(act >= millis(20));
}

#[test]
fn clock_elapsed_grows_while_running() {
    let mut fixture = Chronograph::new();
    _ = fixture.start();
    let first = fixture.elapsed();
    let second = fixture.elapsed();
    assert!(first <= second);
    wait(5);
    let third = fixture.elapsed();
    assert!(third >= second + millis(5));
    assert_eq!(fixture.accumulated(), 0);
    assert_eq!(fixture.state(), Status::Running);
}

#[test]
fn clock_runs_add_up() {
    let mut fixture = Chronograph::new();
    _ = fixture.start();
    wait(5);
    let expected = fixture.stop();
    wait(5);
    assert_eq!(fixture.start().unwrap(), expected);
    assert_eq!(fixture.state(), Status::Running);
    wait(5);
    let act = fixture.stop();
    assert!(act >= expected + millis(5));
}

#[test]
fn clock_reset_returns_to_initial() {
    let mut fixture = Chronograph::new();
    _ = fixture.start();
    wait(5);
    let expected = fixture.stop();
    assert_eq!(fixture.reset(), expected);
    assert_eq!(fixture.state(), Status::Initial);

    assert_eq!(fixture.reset(), 0);
    assert_eq!(fixture.state(), Status::Initial);

    _ = fixture.start();
    wait(5);
    assert!(fixture.reset() >= millis(5));
    assert_eq!(fixture.state(), Status::Initial);
    assert_eq!(fixture.pivot(), None);
    assert_eq!(fixture.accumulated(), 0);
}

#[test]
fn clock_restart_runs_from_zero() {
    let mut fixture = Chronograph::new();
    assert_eq!(fixture.restart(), 0);
    assert_eq!(fixture.state(), Status::Running);

    wait(5);

    let expected = fixture.stop();
    assert!(expected >= millis(5));
    assert_eq!(expected, fixture.restart());
    assert_eq!(fixture.state(), Status::Running);
    assert_eq!(fixture.accumulated(), 0);

    wait(5);

    let total = fixture.restart();
    assert!(total >= millis(5));
    assert!(fixture.elapsed() < total + millis(10_000));
}
