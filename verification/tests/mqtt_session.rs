use klyhostservice::mqtt::{
    client_settings, connect_settings, pending_of, session_connect_settings, session_start,
    session_step, subscriptions, SessionAction, SessionEvent, SessionOutcome, SessionState,
    MQTT_VERSION_3_1_1, QOS_EXACTLY_ONCE, RECONNECT_DELAY_MS, STREAM_BUFFER,
};

#[test]
fn client_settings_use_url_and_fixed_id() {
    let c = client_settings("tcp://localhost:1883");
    assert_eq!(c.server_uri, "tcp://localhost:1883");
    assert_eq!(c.client_id, "klyhostservice_subscribe");
}

#[test]
fn connect_settings_of_session() {
    let c = session_connect_settings();
    assert_eq!(c.keep_alive_secs, 20);
    assert_eq!(c.mqtt_version, MQTT_VERSION_3_1_1);
    assert_eq!(c.mqtt_version, 4);
    assert!(!c.clean_session);
    assert_eq!(c.will_topic, "test");
    assert_eq!(c.will_payload, "Async subscriber lost connection");
    assert_eq!(c.will_qos, 2);
}

#[test]
fn connect_settings_carry_the_will() {
    let c = connect_settings("a", "b", 1);
    assert_eq!((c.will_topic.as_str(), c.will_payload.as_str(), c.will_qos), ("a", "b", 1));
}

#[test]
fn subscriptions_are_test_and_hello_exactly_once() {
    let (topics, qos) = subscriptions();
    assert_eq!(topics, vec!["test".to_string(), "hello".to_string()]);
    assert_eq!(qos, vec![QOS_EXACTLY_ONCE, QOS_EXACTLY_ONCE]);
    assert_eq!(QOS_EXACTLY_ONCE, 2);
}

#[test]
fn session_happy_path() {
    let (s, a) = session_start();
    assert_eq!((s, a), (SessionState::Connecting, SessionAction::Connect));
    let (s, a) = session_step(s, SessionEvent::ConnectDone(true));
    assert_eq!((s, a), (SessionState::Subscribing, SessionAction::Subscribe));
    let (s, a) = session_step(s, SessionEvent::SubscribeDone(true));
    assert_eq!((s, a), (SessionState::Streaming, SessionAction::OpenStream(25)));
    assert_eq!(STREAM_BUFFER, 25);
    let (s, a) = session_step(s, SessionEvent::MessageArrived);
    assert_eq!((s, a), (SessionState::Streaming, SessionAction::AwaitMessage));
    let (s, a) = session_step(s, SessionEvent::StreamEnded);
    let done = SessionState::Finished(SessionOutcome::Completed);
    assert_eq!((s, a), (done, SessionAction::Stop(SessionOutcome::Completed)));
}

#[test]
fn connect_failure_ends_session() {
    let (s, a) = session_step(SessionState::Connecting, SessionEvent::ConnectDone(false));
    assert_eq!(s, SessionState::Finished(SessionOutcome::ConnectFailed));
    assert_eq!(a, SessionAction::Stop(SessionOutcome::ConnectFailed));
}

#[test]
fn subscribe_failure_ends_session() {
    let (s, a) = session_step(SessionState::Subscribing, SessionEvent::SubscribeDone(false));
    assert_eq!(s, SessionState::Finished(SessionOutcome::SubscribeFailed));
    assert_eq!(a, SessionAction::Stop(SessionOutcome::SubscribeFailed));
}

#[test]
fn lost_connection_retries_with_delay() {
    let (s, a) = session_step(SessionState::Streaming, SessionEvent::ConnectionLost);
    assert_eq!((s, a), (SessionState::Reconnecting, SessionAction::Reconnect));
    let mut s = s;
    for _ in 0..3 {
        let (s1, a1) = session_step(s, SessionEvent::ReconnectDone(false));
        assert_eq!((s1, a1), (SessionState::Backoff, SessionAction::Sleep(1000)));
        let (s2, a2) = session_step(s1, SessionEvent::Slept);
        assert_eq!((s2, a2), (SessionState::Reconnecting, SessionAction::Reconnect));
        s = s2;
    }
    assert_eq!(RECONNECT_DELAY_MS, 1000);
    let (s, a) = session_step(s, SessionEvent::ReconnectDone(true));
    assert_eq!((s, a), (SessionState::Streaming, SessionAction::AwaitMessage));
}

#[test]
fn unexpected_event_repeats_pending_work() {
    let (s, a) = session_step(SessionState::Reconnecting, SessionEvent::MessageArrived);
    assert_eq!((s, a), (SessionState::Reconnecting, SessionAction::Reconnect));
    let (s, a) = session_step(SessionState::Backoff, SessionEvent::ReconnectDone(true));
    assert_eq!((s, a), (SessionState::Backoff, SessionAction::Sleep(1000)));
    assert_eq!(pending_of(SessionState::Subscribing), SessionAction::Subscribe);
}

#[test]
fn finished_session_stays_finished() {
    let done = SessionState::Finished(SessionOutcome::ConnectFailed);
    for e in [
        SessionEvent::ConnectDone(true),
        SessionEvent::MessageArrived,
        SessionEvent::ConnectionLost,
        SessionEvent::ReconnectDone(true),
        SessionEvent::Slept,
        SessionEvent::StreamEnded,
    ] {
        let (s, a) = session_step(done, e);
        assert_eq!(s, done);
        assert_eq!(a, SessionAction::Stop(SessionOutcome::ConnectFailed));
    }
}
