use apogee::gphoto::actor::{
    ActorAction, Connection, ConnectionConfig, ConnectionError, WaitAction, WaitEvent, after_connect,
    after_serving, on_wait_event,
};
use apogee::gphoto::driver::{Driver, Uninitialized};
use apogee::gphoto::handle::{capture_outcome, ready_outcome};
use apogee::gphoto::types::CaptureError;
use apogee::protocol::CameraStatus;

fn recovering(attempt: u32, reason: &str) -> CameraStatus {
    CameraStatus::Recovering { attempt, reason: reason.to_string() }
}

#[test]
fn default_connection_config() {
    let c = ConnectionConfig::default();
    assert_eq!(c.max_soft_retries, 3);
    assert_eq!(c.max_total_retries, 6);
}

#[test]
fn connection_sequence_gives_up_after_six_attempts() {
    let config = ConnectionConfig::default();
    let mut next = Connection::start(config);
    let mut seen = Vec::new();
    loop {
        match next {
            Connection::Attempt(a) => {
                seen.push((a.attempt(), a.status(), a.is_hard_reset()));
                next = a.detection_failed().wait_finished(Ok(()));
            }
            Connection::Failed(e) => {
                assert_eq!(e, ConnectionError::HardwareUnresponsive);
                break;
            }
        }
    }
    let soft = "Detecting camera on USB bus";
    let hard = "Resetting USB port and re-detecting";
    assert_eq!(
        seen,
        vec![
            (1, recovering(1, soft), false),
            (2, recovering(2, soft), false),
            (3, recovering(3, soft), false),
            (4, recovering(4, hard), true),
            (5, recovering(5, hard), false),
            (6, recovering(6, hard), false),
        ]
    );
}

#[test]
fn connection_stops_when_quitting() {
    let next = Connection::start(ConnectionConfig::default());
    let Connection::Attempt(a) = next else { panic!("expected an attempt") };
    match a.detection_failed().wait_finished(Err(ConnectionError::AppQuitting)) {
        Connection::Failed(e) => assert_eq!(e, ConnectionError::AppQuitting),
        Connection::Attempt(_) => panic!("expected failure"),
    }
}

#[test]
fn connection_with_no_attempts_fails_at_once() {
    let config = ConnectionConfig { max_soft_retries: 0, max_total_retries: 0 };
    match Connection::start(config) {
        Connection::Failed(e) => assert_eq!(e, ConnectionError::HardwareUnresponsive),
        Connection::Attempt(_) => panic!("expected failure"),
    }
}

#[test]
fn first_attempt_is_the_hard_reset_without_soft_retries() {
    let config = ConnectionConfig { max_soft_retries: 0, max_total_retries: 2 };
    let Connection::Attempt(a) = Connection::start(config) else { panic!("expected an attempt") };
    assert!(a.is_hard_reset());
    assert_eq!(a.status(), recovering(1, "Resetting USB port and re-detecting"));
}

#[test]
fn waiting_refuses_captures() {
    assert_eq!(on_wait_event(WaitEvent::Elapsed), WaitAction::Finish(Ok(())));
    assert_eq!(
        on_wait_event(WaitEvent::CaptureRequested),
        WaitAction::Refuse(CaptureError::Interrupted)
    );
    assert_eq!(
        on_wait_event(WaitEvent::ChannelClosed),
        WaitAction::Finish(Err(ConnectionError::AppQuitting))
    );
}

#[test]
fn actor_loop_decisions() {
    assert_eq!(after_connect::<u8>(&Ok(1)), ActorAction::Serve);
    assert_eq!(after_connect::<u8>(&Err(ConnectionError::AppQuitting)), ActorAction::Quit);
    assert_eq!(
        after_connect::<u8>(&Err(ConnectionError::HardwareUnresponsive)),
        ActorAction::Reconnect
    );
    assert_eq!(after_serving(&None), ActorAction::Quit);
    assert_eq!(after_serving(&Some("usb error".to_string())), ActorAction::Reconnect);
}

#[test]
fn capture_outcomes() {
    assert_eq!(capture_outcome(false, None), Err(CaptureError::ActorDisconnected));
    assert_eq!(capture_outcome(false, Some(Ok(()))), Err(CaptureError::ActorDisconnected));
    assert_eq!(capture_outcome(true, None), Err(CaptureError::Interrupted));
    assert_eq!(capture_outcome(true, Some(Ok(()))), Ok(()));
    assert_eq!(
        capture_outcome(true, Some(Err(CaptureError::Fatal("shutter".to_string())))),
        Err(CaptureError::Fatal("shutter".to_string()))
    );
}

#[test]
fn ready_outcomes() {
    assert_eq!(ready_outcome(true), Ok(()));
    assert_eq!(ready_outcome(false), Err(CaptureError::ActorDisconnected));
}

#[test]
fn camera_status_readiness() {
    assert!(CameraStatus::Ready.is_ready());
    assert!(!CameraStatus::Disconnected.is_ready());
    assert!(!recovering(1, "x").is_ready());
    assert!(!CameraStatus::Fatal("x".to_string()).is_ready());
}

#[test]
fn default_driver_is_uninitialized() {
    let d: Driver<Uninitialized> = Driver::default();
    let _state: &Uninitialized = d.state();
    let _back: Uninitialized = d.into_state();
    let again = Driver::with_state(Uninitialized);
    let _ = again.state();
}

use apogee::gphoto::actor::{Directive, DriverEvent, DriverLoop, DriverPhase, RETRY_DELAY_MILLIS};

fn expect_detect(d: Directive, n: u32, reason: &str, reset: bool) {
    match d {
        Directive::Detect { attempt, status, hard_reset } => {
            assert_eq!(attempt, n);
            assert_eq!(status, recovering(n, reason));
            assert_eq!(hard_reset, reset);
        }
        other => panic!("expected a detection, got {:?}", other),
    }
}

#[test]
fn driver_loop_connects_serves_and_stops() {
    let (mut l, d) = DriverLoop::start(ConnectionConfig::default());
    expect_detect(d, 1, "Detecting camera on USB bus", false);
    assert!(matches!(l.on_event(DriverEvent::NotDetected), Directive::Wait { millis } if millis == RETRY_DELAY_MILLIS));
    expect_detect(l.on_event(DriverEvent::WaitEnded(Ok(()))), 2, "Detecting camera on USB bus", false);
    assert!(matches!(l.on_event(DriverEvent::Detected), Directive::PublishReadyAndServe));
    assert_eq!(l.phase(), DriverPhase::Serving);
    expect_detect(
        l.on_event(DriverEvent::ServingEnded(Some("usb".to_string()))),
        1,
        "Detecting camera on USB bus",
        false,
    );
    assert!(matches!(l.on_event(DriverEvent::Detected), Directive::PublishReadyAndServe));
    assert!(matches!(l.on_event(DriverEvent::ServingEnded(None)), Directive::Stop));
    assert!(matches!(l.on_event(DriverEvent::Detected), Directive::Stop));
    assert_eq!(l.phase(), DriverPhase::Stopped);
}

#[test]
fn driver_loop_restarts_from_first_attempt_after_giving_up() {
    let (mut l, mut d) = DriverLoop::start(ConnectionConfig::default());
    for n in 1..=6u32 {
        let reason = if n <= 3 { "Detecting camera on USB bus" } else { "Resetting USB port and re-detecting" };
        expect_detect(d, n, reason, n == 4);
        assert!(matches!(l.on_event(DriverEvent::NotDetected), Directive::Wait { .. }));
        d = l.on_event(DriverEvent::WaitEnded(Ok(())));
    }
    assert!(matches!(d, Directive::ReportUnresponsive));
    assert_eq!(l.phase(), DriverPhase::GaveUp);
    assert!(matches!(l.on_event(DriverEvent::Detected), Directive::Ignore));
    expect_detect(l.on_event(DriverEvent::Restart), 1, "Detecting camera on USB bus", false);
}

#[test]
fn driver_loop_stops_when_quitting_during_a_wait() {
    let (mut l, _) = DriverLoop::start(ConnectionConfig::default());
    l.on_event(DriverEvent::NotDetected);
    assert!(matches!(l.on_event(DriverEvent::WaitEnded(Err(ConnectionError::AppQuitting))), Directive::Stop));
}

#[test]
fn driver_loop_without_attempts_keeps_reporting() {
    let (mut l, d) = DriverLoop::start(ConnectionConfig { max_soft_retries: 0, max_total_retries: 0 });
    assert!(matches!(d, Directive::ReportUnresponsive));
    assert!(matches!(l.on_event(DriverEvent::Restart), Directive::ReportUnresponsive));
}
