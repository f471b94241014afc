use busy::movement::Position;
use busy::movement_loop::{MovementLoop, Stage, Step};
use busy::signal::{CheckOutcome, StopSignal, WaitOutcome};

#[test]
fn three_timed_out_waits_give_three_ticks_and_keep_running() {
    let current = Position { x: 3, y: 4 };
    let mut l = MovementLoop::starting_at(current, 1920, 1080, false, false);
    let signal = StopSignal::new();
    let mut moves = 0;
    for _ in 0..3 {
        match l.on_check(signal.try_check()) {
            Step::Move { click, .. } => {
                assert!(!click);
                moves += 1;
            }
            Step::Stop => panic!("stopped without a request"),
        }
        assert!(l.on_wait(signal.wait()));
    }
    assert_eq!(moves, 3);
    assert_eq!(l.ticks, 3);
    assert!(l.is_running());
    assert_eq!(l.stage, Stage::PreCheck);
}

#[test]
fn stop_during_wait_ends_without_extra_tick() {
    let a = Position { x: 0, y: 0 };
    let b = Position { x: 960, y: 540 };
    let mut l = MovementLoop::new(a, b, false);
    let mut signal = StopSignal::new();
    assert_eq!(l.on_check(signal.try_check()), Step::Move { target: b, click: false });
    // the stop arrives part way through the interval
    signal.send();
    assert!(!l.on_wait(signal.wait()));
    assert_eq!(l.ticks, 1);
    assert!(!l.is_running());
}

#[test]
fn pending_stop_prevents_movement() {
    let a = Position { x: 1, y: 1 };
    let b = Position { x: 2, y: 2 };
    let mut l = MovementLoop::new(a, b, true);
    assert_eq!(l.on_check(CheckOutcome::Notified), Step::Stop);
    assert_eq!(l.ticks, 0);
    assert_eq!(l.stage, Stage::Stopped);
}

#[test]
fn disconnected_writer_ends_loop() {
    let mut l = MovementLoop::new(Position { x: 1, y: 1 }, Position { x: 2, y: 2 }, false);
    l.on_check(CheckOutcome::Empty);
    assert!(!l.on_wait(WaitOutcome::Disconnected));
    assert_eq!(l.stage, Stage::Stopped);
}

#[test]
fn targets_alternate_between_two_points() {
    let a = Position { x: 10, y: 10 };
    let b = Position { x: 20, y: 30 };
    let mut l = MovementLoop::new(a, b, true);
    let mut targets = Vec::new();
    for _ in 0..4 {
        match l.on_check(CheckOutcome::Empty) {
            Step::Move { target, click } => {
                assert!(click);
                targets.push(target);
            }
            Step::Stop => panic!("unexpected stop"),
        }
        assert!(l.on_wait(WaitOutcome::TimedOut));
    }
    assert_eq!(targets, vec![b, a, b, a]);
}

#[test]
fn centered_start_heads_for_center_first() {
    let current = Position { x: 0, y: 0 };
    let mut l = MovementLoop::starting_at(current, 1921, 1081, true, false);
    assert_eq!(
        l.on_check(CheckOutcome::Empty),
        Step::Move { target: Position { x: 960, y: 540 }, click: false }
    );
}

#[test]
fn uncentered_start_heads_for_point_on_display() {
    let current = Position { x: 5, y: 5 };
    let l = MovementLoop::starting_at(current, 640, 480, false, false);
    assert_eq!(l.plan.start, current);
    assert!(l.plan.end.x >= 0 && l.plan.end.x < 640);
    assert!(l.plan.end.y >= 0 && l.plan.end.y < 480);
}
