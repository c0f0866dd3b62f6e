use reconnect_t::config::ReconnectOptions;
use reconnect_t::engine::EngineState;
use reconnect_t::engine::ReceiveEvent;
use reconnect_t::engine::ReconnectT;
use reconnect_t::errors::ReconnectTError;
use reconnect_t::handshake::HandshakePlan;
use reconnect_t::request::ConnectRequest;
use reconnect_t::request::UriScheme;
use reconnect_t::status::WsStreamStatus;
use reconnect_t::strategies::ExpBackoffStrategy;
use tokio::sync::mpsc::error::TryRecvError;

fn test_request() -> ConnectRequest {
    ConnectRequest {
        host: Some("example.com".to_string()),
        port: None,
        scheme: UriScheme::Wss,
    }
}

fn fast_options() -> ReconnectOptions {
    // 10ms minimum backoff, factor 2.0, no jitter; 50ms idle timeout.
    ReconnectOptions {
        retries_to_attempt: ExpBackoffStrategy::new(10_000_000, 200, 0),
        exit_if_first_fails: false,
        receive_timeout_nanos: 50_000_000,
        handshake_plan: HandshakePlan::NoOp,
    }
}

#[test]
fn three_failures_then_success() {
    // Scenario: three transport failures then success. The waits are
    // exactly [10ms, 20ms, 40ms] and the status listener observes exactly
    // one Connected event, after the third retry.
    let mut engine: ReconnectT<u32, String> = ReconnectT::new(test_request(), Some(fast_options()));
    let mut status = engine.create_status_stream();

    engine.begin_connect();
    assert_eq!(engine.on_connect_failure(), 10_000_000);
    assert_eq!(engine.on_connect_failure(), 20_000_000);
    assert_eq!(engine.on_connect_failure(), 40_000_000);
    assert!(matches!(status.try_recv(), Err(TryRecvError::Empty)));

    engine.on_connect_success();
    assert!(engine.handshake(true).is_ok());
    engine.on_handshake_success(1);

    assert_eq!(status.try_recv(), Ok(WsStreamStatus::Connected));
    assert!(matches!(status.try_recv(), Err(TryRecvError::Empty)));
}

#[test]
fn idle_timeout_demotes_and_restarts() {
    // Scenario: connected, then no inbound traffic within the idle timeout.
    // The loop ends with ReceiveTimeout, the status listener observes
    // Disconnected, and a fresh connect burst begins.
    let mut engine: ReconnectT<u32, String> = ReconnectT::new(test_request(), Some(fast_options()));
    let mut status = engine.create_status_stream();

    engine.begin_connect();
    engine.on_connect_success();
    assert!(engine.handshake(true).is_ok());
    engine.on_handshake_success(1);
    engine.begin_receive();
    assert_eq!(status.try_recv(), Ok(WsStreamStatus::Connected));

    let verdict = engine.receive_step(ReceiveEvent::TimedOut);
    assert!(matches!(
        verdict,
        Some(Err(ReconnectTError::ReceiveTimeout(50_000_000)))
    ));
    assert_eq!(status.try_recv(), Ok(WsStreamStatus::Disconnected));
    assert_eq!(engine.state, EngineState::Connecting);

    // the next burst restarts from the first delay
    engine.begin_connect();
    assert_eq!(engine.on_connect_failure(), 10_000_000);
}

#[test]
fn failing_handshake_never_connects() {
    // Scenario: handshake always fails. The engine never reaches
    // Connected, no Connected event is posted, and the transport connect
    // keeps being retried.
    let mut engine: ReconnectT<u32, String> = ReconnectT::new(test_request(), Some(fast_options()));
    let mut status = engine.create_status_stream();

    let mut attempts: u32 = 0;
    for _ in 0..5 {
        engine.begin_connect();
        attempts += 1;
        engine.on_connect_success();
        let outcome = engine.handshake(false);
        assert!(matches!(outcome, Err(ReconnectTError::HandshakeFailed)));
        assert_eq!(engine.state, EngineState::Connecting);
        assert!(!engine.sender.is_connected());
    }
    assert!(attempts >= 5);
    assert!(matches!(status.try_recv(), Err(TryRecvError::Empty)));
}

#[test]
fn two_listeners_observe_three_frames_in_order() {
    // Scenario: two message listeners subscribed before frames A, B, C
    // arrive; both observe exactly [A, B, C] in that order.
    let mut engine: ReconnectT<u32, String> = ReconnectT::new(test_request(), Some(fast_options()));
    let mut rx1 = engine.create_receive_stream();
    let mut rx2 = engine.create_receive_stream();

    engine.begin_connect();
    engine.on_connect_success();
    assert!(engine.handshake(true).is_ok());
    engine.on_handshake_success(1);
    engine.begin_receive();

    assert!(engine.receive_step(ReceiveEvent::Frame("A".to_string())).is_none());
    assert!(engine.receive_step(ReceiveEvent::Frame("B".to_string())).is_none());
    assert!(engine.receive_step(ReceiveEvent::Frame("C".to_string())).is_none());

    for rx in [&mut rx1, &mut rx2] {
        assert_eq!(rx.try_recv().unwrap(), "A");
        assert_eq!(rx.try_recv().unwrap(), "B");
        assert_eq!(rx.try_recv().unwrap(), "C");
        assert!(matches!(rx.try_recv(), Err(TryRecvError::Empty)));
    }
}

#[test]
fn send_before_connect_fails_then_succeeds_after() {
    // Scenario: send before any successful connect returns
    // SenderNotConnected; after a connect with a write half that always
    // succeeds, send returns success.
    let mut engine: ReconnectT<u32, String> = ReconnectT::new(test_request(), Some(fast_options()));

    assert!(matches!(
        engine.sender.take_for_send(),
        Err(ReconnectTError::SenderNotConnected)
    ));

    engine.begin_connect();
    engine.on_connect_success();
    assert!(engine.handshake(true).is_ok());
    engine.on_handshake_success(8);

    let half = engine.sender.take_for_send().unwrap();
    assert_eq!(half, 8);
    assert!(engine.sender.finish_send(half, Ok(())).is_ok());
}

#[test]
fn read_error_is_wrapped_and_demotes() {
    let mut engine: ReconnectT<u32, String> = ReconnectT::new(test_request(), Some(fast_options()));
    let mut status = engine.create_status_stream();

    engine.begin_connect();
    engine.on_connect_success();
    assert!(engine.handshake(true).is_ok());
    engine.on_handshake_success(1);
    engine.begin_receive();
    assert_eq!(status.try_recv(), Ok(WsStreamStatus::Connected));

    let verdict = engine.receive_step(ReceiveEvent::ReadError(
        tokio_tungstenite::tungstenite::Error::ConnectionClosed,
    ));
    assert!(matches!(
        verdict,
        Some(Err(ReconnectTError::TokioTungsteniteError(_)))
    ));
    assert_eq!(status.try_recv(), Ok(WsStreamStatus::Disconnected));
    assert!(!engine.sender.is_connected());
}

#[test]
fn clean_close_ends_the_loop_without_error() {
    let mut engine: ReconnectT<u32, String> = ReconnectT::new(test_request(), Some(fast_options()));

    engine.begin_connect();
    engine.on_connect_success();
    assert!(engine.handshake(true).is_ok());
    engine.on_handshake_success(1);
    engine.begin_receive();

    let verdict = engine.receive_step(ReceiveEvent::Closed);
    assert!(matches!(verdict, Some(Ok(()))));
    assert_eq!(engine.state, EngineState::Connecting);
}

#[test]
fn default_options_are_used_when_none_given() {
    let engine: ReconnectT<u32, String> = ReconnectT::new(test_request(), None);
    assert_eq!(engine.option.receive_timeout_nanos, 20_000_000_000);
    assert_eq!(engine.option.handshake_plan, HandshakePlan::NoOp);
    assert_eq!(engine.state, EngineState::Idle);
    assert!(!engine.sender.is_connected());
}
