use pimad_edge::system::timer::{armed_decision, idle_decision, ArmedDecision, ArmedWake, IdleDecision, TimerRequest};
use std::time::Duration;

#[test]
fn idle_timer_arms_only_on_init() {
    assert!(matches!(idle_decision(Some(TimerRequest::Init(Duration::from_millis(50)))), IdleDecision::Arm(d) if d == Duration::from_millis(50)));
    assert!(matches!(idle_decision(Some(TimerRequest::Stop)), IdleDecision::Wait));
    assert!(matches!(idle_decision(Some(TimerRequest::Other)), IdleDecision::Wait));
    assert!(matches!(idle_decision(None), IdleDecision::Exit));
}

#[test]
fn armed_timer_fires_or_disarms() {
    assert_eq!(armed_decision(ArmedWake::Elapsed), ArmedDecision::Fire);
    assert_eq!(armed_decision(ArmedWake::Stopped), ArmedDecision::Disarm);
    assert_eq!(armed_decision(ArmedWake::Shutdown), ArmedDecision::Exit);
}

#[test]
fn test_watchdog_timer_timeout() {
    // Armed for 50 ms, the period elapses: the timeout is reported.
    let d = match idle_decision(Some(TimerRequest::Init(Duration::from_millis(50)))) {
        IdleDecision::Arm(d) => d,
        other => panic!("expected Arm, got {:?}", other),
    };
    assert_eq!(d, Duration::from_millis(50));
    assert_eq!(armed_decision(ArmedWake::Elapsed), ArmedDecision::Fire);
}

#[test]
fn test_watchdog_timer_cancel() {
    // Armed for 200 ms, stopped before it elapses: nothing is reported and
    // the timer goes back to waiting for a request.
    assert!(matches!(idle_decision(Some(TimerRequest::Init(Duration::from_millis(200)))), IdleDecision::Arm(_)));
    assert_eq!(armed_decision(ArmedWake::Stopped), ArmedDecision::Disarm);
    assert!(matches!(idle_decision(None), IdleDecision::Exit));
}

#[test]
fn test_watchdog_timer_multiple_cycles() {
    for _ in 0..3 {
        assert!(matches!(
            idle_decision(Some(TimerRequest::Init(Duration::from_millis(50)))),
            IdleDecision::Arm(d) if d == Duration::from_millis(50)
        ));
        assert_eq!(armed_decision(ArmedWake::Elapsed), ArmedDecision::Fire);
    }
}

#[test]
fn test_watchdog_timer_stop_before_init() {
    // A stop while idle is ignored; a later request arms normally.
    assert!(matches!(idle_decision(Some(TimerRequest::Stop)), IdleDecision::Wait));
    assert!(matches!(idle_decision(Some(TimerRequest::Init(Duration::from_millis(50)))), IdleDecision::Arm(_)));
}

#[test]
fn test_watchdog_timer_channel_closed() {
    assert!(matches!(idle_decision(None), IdleDecision::Exit));
}
