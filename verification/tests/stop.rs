use webhook_listener::stop::{StopEffect, StopSignal};

#[test]
fn a_new_signal_is_running() {
    assert!(!StopSignal::new().is_stopped());
}

#[test]
fn stop_makes_the_transition_once() {
    let mut signal = StopSignal::new();
    assert_eq!(signal.stop(), StopEffect::Stopped);
    assert!(signal.is_stopped());
    for _ in 0..5 {
        assert_eq!(signal.stop(), StopEffect::AlreadyStopped);
        assert!(signal.is_stopped());
    }
}
