use vstd::prelude::*;

verus! {

/// Quality of service "exactly once", the level every subscription and the
/// will message of the session use.
pub const QOS_EXACTLY_ONCE: i32 = 2;

/// The protocol level that identifies MQTT 3.1.1 on the wire.
pub const MQTT_VERSION_3_1_1: u32 = 4;

/// Seconds between keep-alive pings of the session.
pub const KEEP_ALIVE_SECS: u64 = 20;

/// Milliseconds to wait after a failed reconnect before the next attempt.
pub const RECONNECT_DELAY_MS: u64 = 1000;

/// How many incoming messages the stream of the session buffers.
pub const STREAM_BUFFER: usize = 25;

/// How the client is created: the broker it talks to and its client id.
#[derive(Debug, Clone, PartialEq, Eq)]
pub struct ClientSettings {
    pub server_uri: String,
    pub client_id: String,
}

/// The client id of the service's subscriber.
pub open spec fn client_id_text() -> Seq<char> {
    "klyhostservice_subscribe"@
}

/// The settings of the client for the broker at `url`.
pub fn client_settings(url: &str) -> (c: ClientSettings)
    ensures
        c.server_uri@ == url@,
        c.client_id@ == client_id_text(),
{
    proof {
        reveal_strlit("klyhostservice_subscribe");
    }
    ClientSettings { server_uri: url.to_owned(), client_id: "klyhostservice_subscribe".to_owned() }
}

/// How the client connects: keep-alive, protocol version, whether the
/// broker keeps the session, and the last-will message.
#[derive(Debug, Clone, PartialEq, Eq)]
pub struct ConnectSettings {
    pub keep_alive_secs: u64,
    pub mqtt_version: u32,
    pub clean_session: bool,
    pub will_topic: String,
    pub will_payload: String,
    pub will_qos: i32,
}

/// The connect settings with the given last-will message: a keep-alive of
/// 20 s, MQTT 3.1.1, and a session that the broker keeps.
pub fn connect_settings(will_topic: &str, will_payload: &str, qos: i32) -> (c: ConnectSettings)
    ensures
        c.keep_alive_secs == KEEP_ALIVE_SECS,
        c.mqtt_version == MQTT_VERSION_3_1_1,
        !c.clean_session,
        c.will_topic@ == will_topic@,
        c.will_payload@ == will_payload@,
        c.will_qos == qos,
{
    ConnectSettings {
        keep_alive_secs: KEEP_ALIVE_SECS,
        mqtt_version: MQTT_VERSION_3_1_1,
        clean_session: false,
        will_topic: will_topic.to_owned(),
        will_payload: will_payload.to_owned(),
        will_qos: qos,
    }
}

/// The topic of the session's last-will message.
pub open spec fn will_topic_text() -> Seq<char> {
    "test"@
}

/// The payload of the session's last-will message.
pub open spec fn will_payload_text() -> Seq<char> {
    "Async subscriber lost connection"@
}

/// The connect settings of the service's session: its last will says on
/// topic "test", exactly once, that the subscriber lost its connection.
pub fn session_connect_settings() -> (c: ConnectSettings)
    ensures
        c.keep_alive_secs == KEEP_ALIVE_SECS,
        c.mqtt_version == MQTT_VERSION_3_1_1,
        !c.clean_session,
        c.will_topic@ == will_topic_text(),
        c.will_payload@ == will_payload_text(),
        c.will_qos == QOS_EXACTLY_ONCE,
{
    proof {
        reveal_strlit("test");
        reveal_strlit("Async subscriber lost connection");
    }
    connect_settings("test", "Async subscriber lost connection", QOS_EXACTLY_ONCE)
}

/// The topics that the session subscribes to, in order.
pub open spec fn subscribed_topics() -> Seq<Seq<char>> {
    seq!["test"@, "hello"@]
}

/// The topics of the session and, at the same index, the quality of service
/// of each: two lists of one length, as the broker's subscribe-many asks.
pub fn subscriptions() -> (r: (Vec<String>, Vec<i32>))
    ensures
        r.0.len() == r.1.len(),
        r.0.len() == subscribed_topics().len(),
        forall|i: int| 0 <= i < r.0.len() ==> #[trigger] r.0[i]@ == subscribed_topics()[i],
        forall|i: int| 0 <= i < r.1.len() ==> #[trigger] r.1[i] == QOS_EXACTLY_ONCE,
{
    proof {
        reveal_strlit("test");
        reveal_strlit("hello");
    }
    let mut topics: Vec<String> = Vec::new();
    topics.push("test".to_owned());
    topics.push("hello".to_owned());
    let mut qos: Vec<i32> = Vec::new();
    qos.push(QOS_EXACTLY_ONCE);
    qos.push(QOS_EXACTLY_ONCE);
    (topics, qos)
}

/// How a session ended.
#[derive(Debug, Clone, Copy, PartialEq, Eq)]
pub enum SessionOutcome {
    /// The stream of messages ended.
    Completed,
    /// Connecting to the broker failed; the session returns that error.
    ConnectFailed,
    /// Subscribing failed; the session returns that error.
    SubscribeFailed,
}

/// Where the subscriber's session stands.
#[derive(Debug, Clone, Copy, PartialEq, Eq)]
pub enum SessionState {
    Connecting,
    Subscribing,
    Streaming,
    Reconnecting,
    Backoff,
    Finished(SessionOutcome),
}

/// What the outside world reported back to the session.
#[derive(Debug, Clone, Copy, PartialEq, Eq)]
pub enum SessionEvent {
    /// The connect finished, successfully or not.
    ConnectDone(bool),
    /// The subscription finished, successfully or not.
    SubscribeDone(bool),
    /// A message arrived on the stream.
    MessageArrived,
    /// The stream reported that the connection is lost.
    ConnectionLost,
    /// The stream itself ended.
    StreamEnded,
    /// A reconnect attempt finished, successfully or not.
    ReconnectDone(bool),
    /// The pause before the next reconnect attempt is over.
    Slept,
}

/// The outside work the session asks for next.
#[derive(Debug, Clone, Copy, PartialEq, Eq)]
pub enum SessionAction {
    /// Connect with `session_connect_settings()`.
    Connect,
    /// Subscribe to `subscriptions()`.
    Subscribe,
    /// Open the message stream, buffering this many messages, and wait for
    /// the first event on it.
    OpenStream(usize),
    /// Wait for the next event on the stream.
    AwaitMessage,
    /// Try to reconnect.
    Reconnect,
    /// Sleep this many milliseconds.
    Sleep(u64),
    /// The session is over.
    Stop(SessionOutcome),
}

/// The work that a state waits on.
pub open spec fn pending_action(state: SessionState) -> SessionAction {
    match state {
        SessionState::Connecting => SessionAction::Connect,
        SessionState::Subscribing => SessionAction::Subscribe,
        SessionState::Streaming => SessionAction::AwaitMessage,
        SessionState::Reconnecting => SessionAction::Reconnect,
        SessionState::Backoff => SessionAction::Sleep(RECONNECT_DELAY_MS),
        SessionState::Finished(o) => SessionAction::Stop(o),
    }
}

/// One step of the session: the state and the action that follow `event`
/// in `state`. An event that does not answer the state's pending work
/// leaves the state as it is and asks for that work again.
pub open spec fn session_step_spec(state: SessionState, event: SessionEvent) -> (SessionState, SessionAction) {
    match (state, event) {
        (SessionState::Connecting, SessionEvent::ConnectDone(true)) =>
            (SessionState::Subscribing, SessionAction::Subscribe),
        (SessionState::Connecting, SessionEvent::ConnectDone(false)) =>
            (SessionState::Finished(SessionOutcome::ConnectFailed), SessionAction::Stop(SessionOutcome::ConnectFailed)),
        (SessionState::Subscribing, SessionEvent::SubscribeDone(true)) =>
            (SessionState::Streaming, SessionAction::OpenStream(STREAM_BUFFER)),
        (SessionState::Subscribing, SessionEvent::SubscribeDone(false)) =>
            (SessionState::Finished(SessionOutcome::SubscribeFailed), SessionAction::Stop(SessionOutcome::SubscribeFailed)),
        (SessionState::Streaming, SessionEvent::MessageArrived) =>
            (SessionState::Streaming, SessionAction::AwaitMessage),
        (SessionState::Streaming, SessionEvent::ConnectionLost) =>
            (SessionState::Reconnecting, SessionAction::Reconnect),
        (SessionState::Streaming, SessionEvent::StreamEnded) =>
            (SessionState::Finished(SessionOutcome::Completed), SessionAction::Stop(SessionOutcome::Completed)),
        (SessionState::Reconnecting, SessionEvent::ReconnectDone(true)) =>
            (SessionState::Streaming, SessionAction::AwaitMessage),
        (SessionState::Reconnecting, SessionEvent::ReconnectDone(false)) =>
            (SessionState::Backoff, SessionAction::Sleep(RECONNECT_DELAY_MS)),
        (SessionState::Backoff, SessionEvent::Slept) =>
            (SessionState::Reconnecting, SessionAction::Reconnect),
        _ => (state, pending_action(state)),
    }
}

/// The session before anything happened, and its first request.
pub fn session_start() -> (r: (SessionState, SessionAction))
    ensures
        r == (SessionState::Connecting, SessionAction::Connect),
{
    (SessionState::Connecting, SessionAction::Connect)
}

/// Decides the next state of the session and the work it asks for, from
/// the current state and what the last piece of work reported.
pub fn session_step(state: SessionState, event: SessionEvent) -> (r: (SessionState, SessionAction))
    ensures
        r == session_step_spec(state, event),
{
    match (state, event) {
        (SessionState::Connecting, SessionEvent::ConnectDone(true)) =>
            (SessionState::Subscribing, SessionAction::Subscribe),
        (SessionState::Connecting, SessionEvent::ConnectDone(false)) =>
            (SessionState::Finished(SessionOutcome::ConnectFailed), SessionAction::Stop(SessionOutcome::ConnectFailed)),
        (SessionState::Subscribing, SessionEvent::SubscribeDone(true)) =>
            (SessionState::Streaming, SessionAction::OpenStream(STREAM_BUFFER)),
        (SessionState::Subscribing, SessionEvent::SubscribeDone(false)) =>
            (SessionState::Finished(SessionOutcome::SubscribeFailed), SessionAction::Stop(SessionOutcome::SubscribeFailed)),
        (SessionState::Streaming, SessionEvent::MessageArrived) =>
            (SessionState::Streaming, SessionAction::AwaitMessage),
        (SessionState::Streaming, SessionEvent::ConnectionLost) =>
            (SessionState::Reconnecting, SessionAction::Reconnect),
        (SessionState::Streaming, SessionEvent::StreamEnded) =>
            (SessionState::Finished(SessionOutcome::Completed), SessionAction::Stop(SessionOutcome::Completed)),
        (SessionState::Reconnecting, SessionEvent::ReconnectDone(true)) =>
            (SessionState::Streaming, SessionAction::AwaitMessage),
        (SessionState::Reconnecting, SessionEvent::ReconnectDone(false)) =>
            (SessionState::Backoff, SessionAction::Sleep(RECONNECT_DELAY_MS)),
        (SessionState::Backoff, SessionEvent::Slept) =>
            (SessionState::Reconnecting, SessionAction::Reconnect),
        _ => (state, pending_of(state)),
    }
}

/// The work that `state` waits on.
pub fn pending_of(state: SessionState) -> (a: SessionAction)
    ensures
        a == pending_action(state),
{
    match state {
        SessionState::Connecting => SessionAction::Connect,
        SessionState::Subscribing => SessionAction::Subscribe,
        SessionState::Streaming => SessionAction::AwaitMessage,
        SessionState::Reconnecting => SessionAction::Reconnect,
        SessionState::Backoff => SessionAction::Sleep(RECONNECT_DELAY_MS),
        SessionState::Finished(o) => SessionAction::Stop(o),
    }
}

/// The state after a whole series of events, from `state`.
pub open spec fn session_run(state: SessionState, events: Seq<SessionEvent>) -> SessionState
    decreases events.len(),
{
    if events.len() == 0 {
        state
    } else {
        session_run(session_step_spec(state, events[0]).0, events.drop_first())
    }
}

/// A message on the stream changes nothing: the session keeps streaming
/// and waits for the next one.
pub proof fn lemma_message_keeps_streaming()
    ensures
        session_step_spec(SessionState::Streaming, SessionEvent::MessageArrived) == (
            SessionState::Streaming,
            SessionAction::AwaitMessage,
        ),
{
}

/// A lost connection is answered by a reconnect; each failed reconnect by a
/// pause of `RECONNECT_DELAY_MS` and then another reconnect; a successful
/// one resumes the stream.
pub proof fn lemma_reconnect_cycle()
    ensures
        session_step_spec(SessionState::Streaming, SessionEvent::ConnectionLost) == (
            SessionState::Reconnecting,
            SessionAction::Reconnect,
        ),
        session_step_spec(SessionState::Reconnecting, SessionEvent::ReconnectDone(false)) == (
            SessionState::Backoff,
            SessionAction::Sleep(RECONNECT_DELAY_MS),
        ),
        session_step_spec(SessionState::Backoff, SessionEvent::Slept) == (
            SessionState::Reconnecting,
            SessionAction::Reconnect,
        ),
        session_step_spec(SessionState::Reconnecting, SessionEvent::ReconnectDone(true)) == (
            SessionState::Streaming,
            SessionAction::AwaitMessage,
        ),
{
}

/// Once the connection is lost, the session keeps trying to reconnect
/// (it never ends and never resumes streaming) until a reconnect succeeds.
pub proof fn lemma_retries_until_reconnected(state: SessionState, events: Seq<SessionEvent>)
    requires
        state == SessionState::Reconnecting || state == SessionState::Backoff,
        forall|i: int| 0 <= i < events.len() ==> events[i] != SessionEvent::ReconnectDone(true),
    ensures
        session_run(state, events) == SessionState::Reconnecting || session_run(state, events)
            == SessionState::Backoff,
    decreases events.len(),
{
    if events.len() > 0 {
        let next = session_step_spec(state, events[0]).0;
        assert(events[0] != SessionEvent::ReconnectDone(true));
        assert forall|i: int| 0 <= i < events.drop_first().len() implies events.drop_first()[i]
            != SessionEvent::ReconnectDone(true) by {
            assert(events.drop_first()[i] == events[i + 1]);
        }
        lemma_retries_until_reconnected(next, events.drop_first());
    }
}

/// A finished session stays finished, whatever is reported afterwards.
pub proof fn lemma_finished_is_final(outcome: SessionOutcome, events: Seq<SessionEvent>)
    ensures
        session_run(SessionState::Finished(outcome), events) == SessionState::Finished(outcome),
    decreases events.len(),
{
    if events.len() > 0 {
        lemma_finished_is_final(outcome, events.drop_first());
    }
}

/// A session ends only in three ways: a failed connect, a failed subscribe,
/// or the end of the message stream; a lost connection never ends it.
pub proof fn lemma_ways_to_finish(state: SessionState, event: SessionEvent)
    requires
        !(state is Finished),
        session_step_spec(state, event).0 is Finished,
    ensures
        (state == SessionState::Connecting && event == SessionEvent::ConnectDone(false)
            && session_step_spec(state, event).0 == SessionState::Finished(SessionOutcome::ConnectFailed))
        || (state == SessionState::Subscribing && event == SessionEvent::SubscribeDone(false)
            && session_step_spec(state, event).0 == SessionState::Finished(SessionOutcome::SubscribeFailed))
        || (state == SessionState::Streaming && event == SessionEvent::StreamEnded
            && session_step_spec(state, event).0 == SessionState::Finished(SessionOutcome::Completed)),
{
}

} // verus!
