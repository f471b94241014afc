use busy::signal::{CheckOutcome, SignalOp, StopSignal, WaitOutcome};

#[test]
fn fresh_signal_times_out_repeatedly() {
    let s = StopSignal::new();
    for _ in 0..5 {
        assert_eq!(s.wait(), WaitOutcome::TimedOut);
        assert_eq!(s.try_check(), CheckOutcome::Empty);
    }
}

#[test]
fn every_wait_after_send_is_notified() {
    let mut s = StopSignal::new();
    assert_eq!(s.wait(), WaitOutcome::TimedOut);
    s.send();
    for _ in 0..5 {
        assert_eq!(s.wait(), WaitOutcome::Notified);
        assert_eq!(s.try_check(), CheckOutcome::Notified);
    }
    s.close_writer();
    assert_eq!(s.wait(), WaitOutcome::Notified);
}

#[test]
fn sending_twice_matches_sending_once() {
    let mut once = StopSignal::new();
    once.send();
    let mut twice = StopSignal::new();
    twice.send();
    twice.send();
    assert_eq!(once.wait(), twice.wait());
    assert_eq!(once.try_check(), twice.try_check());
}

#[test]
fn closed_writer_without_send_disconnects() {
    let mut s = StopSignal::new();
    s.close_writer();
    assert_eq!(s.wait(), WaitOutcome::Disconnected);
    assert_eq!(s.try_check(), CheckOutcome::Empty);
    s.apply(SignalOp::Send);
    assert_eq!(s.wait(), WaitOutcome::Disconnected);
}

#[test]
fn apply_matches_direct_calls() {
    let mut s = StopSignal::new();
    s.apply(SignalOp::Send);
    assert_eq!(s.wait(), WaitOutcome::Notified);
}
