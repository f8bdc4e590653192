use crypto_botters::websocket::{
    ConnectionInner, ConnectionSetup, Dispatch, Dispatcher, Frame, Inbound, ReconnectState,
    SetupAction, SetupEvent, SetupPhase, Supervisor, SupervisorAction, SupervisorEvent,
    SupervisorPhase, WebSocketConfig, WebSocketHandler, WebSocketMessage,
};
use std::time::Duration;

fn text(s: &str) -> WebSocketMessage {
    WebSocketMessage::Text(s.to_owned())
}

fn frame(connection: bool, s: &str) -> Inbound {
    Inbound::Frame { connection, frame: Frame::Text(s.to_owned()) }
}

struct Recorder {
    started: u32,
    seen: Vec<WebSocketMessage>,
    closed: Vec<bool>,
}

impl Recorder {
    fn new() -> Self {
        Recorder { started: 0, seen: Vec::new(), closed: Vec::new() }
    }
}

impl WebSocketHandler for Recorder {
    fn handle_start(&mut self) -> Vec<WebSocketMessage> {
        self.started += 1;
        vec![text("auth"), text("subscribe")]
    }

    fn handle_message(&mut self, message: WebSocketMessage) -> Vec<WebSocketMessage> {
        let reply = match &message {
            WebSocketMessage::Ping(data) => vec![WebSocketMessage::Pong(data.clone())],
            _ => vec![],
        };
        self.seen.push(message);
        reply
    }

    fn handle_close(&mut self, reconnect: bool) {
        self.closed.push(reconnect);
    }
}

struct Silent;

impl WebSocketHandler for Silent {
    fn handle_message(&mut self, _: WebSocketMessage) -> Vec<WebSocketMessage> {
        vec![]
    }
}

#[test]
fn default_websocket_config() {
    let config = WebSocketConfig::default();
    assert_eq!(config.connect_cooldown, Duration::from_millis(3000));
    assert_eq!(config.refresh_after, Duration::ZERO);
    assert_eq!(config.url_prefix, "");
    assert!(!config.ignore_duplicate_during_reconnection);
    assert_eq!(config.reconnection_wait, Duration::from_millis(300));
    let config = WebSocketConfig::new();
    assert_eq!(config.connect_cooldown, Duration::from_millis(3000));
    assert_eq!(config.refresh_after, Duration::ZERO);
    assert_eq!(config.reconnection_wait, Duration::from_millis(300));
}

#[test]
fn handler_defaults() {
    let mut handler = Silent;
    let config = handler.websocket_config();
    assert_eq!(config.connect_cooldown, Duration::from_millis(3000));
    assert!(handler.handle_start().is_empty());
    handler.handle_close(true);
}

#[test]
fn frames_and_messages_convert_both_ways() {
    assert_eq!(WebSocketMessage::from_message(Frame::Text("a".to_owned())), Some(text("a")));
    assert_eq!(
        WebSocketMessage::from_message(Frame::Binary(vec![1, 2])),
        Some(WebSocketMessage::Binary(vec![1, 2]))
    );
    assert_eq!(
        WebSocketMessage::from_message(Frame::Ping(vec![3])),
        Some(WebSocketMessage::Ping(vec![3]))
    );
    assert_eq!(
        WebSocketMessage::from_message(Frame::Pong(vec![4])),
        Some(WebSocketMessage::Pong(vec![4]))
    );
    assert_eq!(WebSocketMessage::from_message(Frame::Close), None);
    assert_eq!(WebSocketMessage::from_message(Frame::Raw), None);
    assert_eq!(text("a").into_message(), Frame::Text("a".to_owned()));
    assert_eq!(WebSocketMessage::Binary(vec![9]).into_message(), Frame::Binary(vec![9]));
    assert_eq!(WebSocketMessage::Ping(vec![]).into_message(), Frame::Ping(vec![]));
    assert_eq!(WebSocketMessage::Pong(vec![7]).into_message(), Frame::Pong(vec![7]));
}

#[test]
fn message_equality_and_clone() {
    let a = WebSocketMessage::Binary(vec![1, 2, 3]);
    assert!(a.same(&a.clone()));
    assert!(!a.same(&WebSocketMessage::Binary(vec![1, 2])));
    assert!(!a.same(&WebSocketMessage::Binary(vec![1, 2, 4])));
    assert!(!a.same(&WebSocketMessage::Ping(vec![1, 2, 3])));
    assert!(text("x").same(&text("x")));
    assert!(!text("x").same(&text("y")));
    assert_eq!(a.clone(), a);
    assert_eq!(Frame::Close.clone(), Frame::Close);
    assert_eq!(Frame::Text("q".to_owned()).clone(), Frame::Text("q".to_owned()));
}

#[test]
fn request_reconnect_is_refused_while_reconnecting() {
    let mut state = ReconnectState::new();
    assert!(!state.is_reconnecting());
    assert!(!state.is_wake_pending());
    assert!(state.request_reconnect());
    assert!(state.is_wake_pending());
    assert!(!state.is_reconnecting());
    // a second request before the supervisor woke up is accepted and absorbed
    assert!(state.request_reconnect());
    assert!(state.is_wake_pending());
    state.begin_reconnect();
    assert!(state.is_reconnecting());
    assert!(!state.is_wake_pending());
    assert!(!state.request_reconnect());
    assert!(!state.is_wake_pending());
    assert!(state.is_reconnecting());
    state.end_reconnect();
    assert!(!state.is_reconnecting());
    assert!(state.request_reconnect());
    assert!(state.take_wake());
    assert!(!state.take_wake());
}

#[test]
fn outside_a_window_every_message_is_delivered_once() {
    let mut dispatcher = Dispatcher::new(true);
    let mut shared = ReconnectState::new();
    for connection in [false, false, true, true, false] {
        match dispatcher.dispatch(&mut shared, frame(connection, "same")) {
            Dispatch::Deliver(message) => assert_eq!(message, text("same")),
            _ => panic!("a message outside a reconnect window was not delivered"),
        }
        assert_eq!(dispatcher.tracked_messages(), 0);
    }
}

#[test]
fn window_with_suppression_delivers_cross_connection_duplicate_once() {
    let mut dispatcher = Dispatcher::new(true);
    let mut shared = ReconnectState::new();
    shared.begin_reconnect();
    assert!(matches!(dispatcher.dispatch(&mut shared, frame(false, "m")), Dispatch::Deliver(_)));
    assert!(matches!(dispatcher.dispatch(&mut shared, frame(true, "m")), Dispatch::Drop));
    assert_eq!(dispatcher.tracked_messages(), 1);
}

#[test]
fn window_with_suppression_delivers_same_connection_repeat_twice() {
    let mut dispatcher = Dispatcher::new(true);
    let mut shared = ReconnectState::new();
    shared.begin_reconnect();
    assert!(matches!(dispatcher.dispatch(&mut shared, frame(true, "m")), Dispatch::Deliver(_)));
    assert!(matches!(dispatcher.dispatch(&mut shared, frame(true, "m")), Dispatch::Deliver(_)));
}

#[test]
fn window_without_suppression_delivers_everything() {
    let mut dispatcher = Dispatcher::new(false);
    let mut shared = ReconnectState::new();
    shared.begin_reconnect();
    assert!(matches!(dispatcher.dispatch(&mut shared, frame(false, "m")), Dispatch::Deliver(_)));
    assert!(matches!(dispatcher.dispatch(&mut shared, frame(true, "m")), Dispatch::Deliver(_)));
    assert!(matches!(dispatcher.dispatch(&mut shared, frame(true, "m")), Dispatch::Deliver(_)));
    assert_eq!(dispatcher.tracked_messages(), 0);
}

#[test]
fn a_message_after_the_window_clears_the_filter() {
    let mut dispatcher = Dispatcher::new(true);
    let mut shared = ReconnectState::new();
    shared.begin_reconnect();
    assert!(matches!(dispatcher.dispatch(&mut shared, frame(false, "a")), Dispatch::Deliver(_)));
    assert!(matches!(dispatcher.dispatch(&mut shared, frame(false, "b")), Dispatch::Deliver(_)));
    assert_eq!(dispatcher.tracked_messages(), 2);
    shared.end_reconnect();
    assert!(matches!(dispatcher.dispatch(&mut shared, frame(true, "c")), Dispatch::Deliver(_)));
    assert_eq!(dispatcher.tracked_messages(), 0);
    // the next window starts afresh: the other side's report of "a" is a first sighting
    shared.begin_reconnect();
    assert!(matches!(dispatcher.dispatch(&mut shared, frame(true, "a")), Dispatch::Deliver(_)));
}

#[test]
fn each_window_starts_with_an_empty_filter() {
    let mut dispatcher = Dispatcher::new(true);
    let mut shared = ReconnectState::new();
    assert!(!shared.is_window_fresh());
    shared.begin_reconnect();
    assert!(shared.is_window_fresh());
    assert!(matches!(dispatcher.dispatch(&mut shared, frame(false, "m")), Dispatch::Deliver(_)));
    assert!(!shared.is_window_fresh());
    assert_eq!(dispatcher.tracked_messages(), 1);
    shared.end_reconnect();
    // no message arrives between the windows
    shared.begin_reconnect();
    // the other side's report of "m" is a first sighting in the new window
    assert!(matches!(dispatcher.dispatch(&mut shared, frame(true, "m")), Dispatch::Deliver(_)));
    assert_eq!(dispatcher.tracked_messages(), 1);
    assert!(matches!(dispatcher.dispatch(&mut shared, frame(false, "m")), Dispatch::Drop));
    // a frame without a message does not enter the window
    shared.end_reconnect();
    shared.begin_reconnect();
    let close = Inbound::Frame { connection: false, frame: Frame::Close };
    assert!(matches!(dispatcher.dispatch(&mut shared, close), Dispatch::Drop));
    assert!(shared.is_window_fresh());
    assert!(shared.enter_window());
    assert!(!shared.enter_window());
}

#[test]
fn control_frames_are_dropped() {
    let mut dispatcher = Dispatcher::new(true);
    let mut shared = ReconnectState::new();
    let close = Inbound::Frame { connection: false, frame: Frame::Close };
    assert!(matches!(dispatcher.dispatch(&mut shared, close), Dispatch::Drop));
    let raw = Inbound::Frame { connection: true, frame: Frame::Raw };
    assert!(matches!(dispatcher.dispatch(&mut shared, raw), Dispatch::Drop));
    assert!(!dispatcher.is_stopped());
}

#[test]
fn a_read_failure_requests_a_reconnect_and_delivers_nothing() {
    let mut dispatcher = Dispatcher::new(true);
    let mut shared = ReconnectState::new();
    match dispatcher.dispatch(&mut shared, Inbound::Failure { connection: false }) {
        Dispatch::Reconnect { accepted } => assert!(accepted),
        _ => panic!("a read failure did not request a reconnect"),
    }
    assert!(shared.is_wake_pending());
    shared.begin_reconnect();
    match dispatcher.dispatch(&mut shared, Inbound::Failure { connection: false }) {
        Dispatch::Reconnect { accepted } => assert!(!accepted),
        _ => panic!("a read failure did not request a reconnect"),
    }
    assert!(!shared.is_wake_pending());
}

#[test]
fn nothing_is_delivered_after_shutdown() {
    let mut dispatcher = Dispatcher::new(true);
    let mut shared = ReconnectState::new();
    shared.begin_reconnect();
    assert!(matches!(dispatcher.dispatch(&mut shared, Inbound::Shutdown), Dispatch::Close));
    assert!(dispatcher.is_stopped());
    assert!(matches!(dispatcher.dispatch(&mut shared, frame(false, "late")), Dispatch::Stopped));
    assert!(matches!(
        dispatcher.dispatch(&mut shared, Inbound::Failure { connection: true }),
        Dispatch::Stopped
    ));
    assert!(matches!(dispatcher.dispatch(&mut shared, Inbound::Shutdown), Dispatch::Stopped));
    assert!(!shared.is_wake_pending());
}

#[test]
fn feed_handler_calls_the_handler_and_returns_its_replies() {
    let mut dispatcher = Dispatcher::new(true);
    let mut shared = ReconnectState::new();
    let mut handler = Recorder::new();
    let ping = Inbound::Frame { connection: false, frame: Frame::Ping(vec![1, 2]) };
    let fed = dispatcher.feed_handler(&mut shared, &mut handler, ping);
    assert!(fed.running);
    assert_eq!(fed.replies, vec![WebSocketMessage::Pong(vec![1, 2])]);
    let fed = dispatcher.feed_handler(&mut shared, &mut handler, frame(false, "tick"));
    assert!(fed.running);
    assert!(fed.replies.is_empty());
    let fed = dispatcher.feed_handler(
        &mut shared,
        &mut handler,
        Inbound::Failure { connection: false },
    );
    assert!(fed.running);
    assert!(fed.replies.is_empty());
    assert_eq!(handler.seen, vec![WebSocketMessage::Ping(vec![1, 2]), text("tick")]);
    let fed = dispatcher.feed_handler(&mut shared, &mut handler, Inbound::Shutdown);
    assert!(!fed.running);
    assert_eq!(handler.closed, vec![false]);
    let fed = dispatcher.feed_handler(&mut shared, &mut handler, frame(false, "late"));
    assert!(!fed.running);
    assert!(fed.replies.is_empty());
    assert_eq!(handler.seen.len(), 2);
    assert_eq!(handler.closed, vec![false]);
}

#[test]
fn feed_handler_withholds_duplicates_from_the_handler() {
    let mut dispatcher = Dispatcher::new(true);
    let mut shared = ReconnectState::new();
    let mut handler = Recorder::new();
    shared.begin_reconnect();
    dispatcher.feed_handler(&mut shared, &mut handler, frame(false, "m"));
    dispatcher.feed_handler(&mut shared, &mut handler, frame(true, "m"));
    assert_eq!(handler.seen, vec![text("m")]);
}

fn supervisor(refresh: u64, suppress: bool) -> Supervisor {
    let mut config = WebSocketConfig::new();
    config.refresh_after = Duration::from_millis(refresh);
    config.connect_cooldown = Duration::from_millis(50);
    config.reconnection_wait = Duration::from_millis(7);
    config.ignore_duplicate_during_reconnection = suppress;
    Supervisor::new(&config)
}

#[test]
fn no_refresh_timer_without_an_interval() {
    let mut supervisor = supervisor(0, false);
    let mut shared = ReconnectState::new();
    assert!(matches!(supervisor.action(), SupervisorAction::Wait { refresh: None }));
    // nothing but a wake-up or an abort moves a waiting supervisor
    for event in [SupervisorEvent::Done, SupervisorEvent::Connected, SupervisorEvent::ConnectFailed] {
        assert!(matches!(supervisor.step(&mut shared, event), SupervisorAction::Ignore));
        assert_eq!(supervisor.phase(), SupervisorPhase::Waiting);
    }
    assert!(!shared.is_reconnecting());
    // a full cycle ends in a wait without a timer again
    supervisor.step(&mut shared, SupervisorEvent::Woken);
    supervisor.step(&mut shared, SupervisorEvent::Done);
    supervisor.step(&mut shared, SupervisorEvent::Connected);
    supervisor.step(&mut shared, SupervisorEvent::Done);
    let action = supervisor.step(&mut shared, SupervisorEvent::Done);
    assert!(matches!(action, SupervisorAction::Wait { refresh: None }));
}

#[test]
fn refresh_timer_with_an_interval() {
    let supervisor = supervisor(1500, false);
    match supervisor.action() {
        SupervisorAction::Wait { refresh } => assert_eq!(refresh, Some(Duration::from_millis(1500))),
        _ => panic!("a fresh supervisor does not wait"),
    }
}

#[test]
fn reconnect_cycle_without_suppression() {
    let mut supervisor = supervisor(0, false);
    let mut shared = ReconnectState::new();
    assert!(shared.request_reconnect());
    match supervisor.step(&mut shared, SupervisorEvent::Woken) {
        SupervisorAction::Cooldown(cooldown) => assert_eq!(cooldown, Duration::from_millis(50)),
        _ => panic!("no cooldown before the attempt"),
    }
    assert!(!shared.is_wake_pending());
    assert!(!shared.is_reconnecting());
    // a request made during the cooldown is absorbed when the window opens
    assert!(shared.request_reconnect());
    assert!(matches!(supervisor.step(&mut shared, SupervisorEvent::Done), SupervisorAction::Connect));
    assert!(shared.is_reconnecting());
    assert!(!shared.is_wake_pending());
    assert!(!shared.request_reconnect());
    assert!(matches!(supervisor.step(&mut shared, SupervisorEvent::Connected), SupervisorAction::Swap));
    assert!(matches!(supervisor.step(&mut shared, SupervisorEvent::Done), SupervisorAction::Retire));
    assert!(shared.is_reconnecting());
    assert!(matches!(
        supervisor.step(&mut shared, SupervisorEvent::Done),
        SupervisorAction::Wait { refresh: None }
    ));
    assert!(!shared.is_reconnecting());
    assert!(!shared.is_wake_pending());
    assert_eq!(supervisor.phase(), SupervisorPhase::Waiting);
}

#[test]
fn reconnect_cycle_with_suppression_settles_twice() {
    let mut supervisor = supervisor(60_000, true);
    let mut shared = ReconnectState::new();
    supervisor.step(&mut shared, SupervisorEvent::Woken);
    match supervisor.step(&mut shared, SupervisorEvent::Done) {
        SupervisorAction::Settle(wait) => assert_eq!(wait, Duration::from_millis(7)),
        _ => panic!("no settle delay before the attempt"),
    }
    assert!(shared.is_reconnecting());
    assert_eq!(supervisor.phase(), SupervisorPhase::Settling);
    assert!(matches!(supervisor.step(&mut shared, SupervisorEvent::Done), SupervisorAction::Connect));
    assert!(matches!(supervisor.step(&mut shared, SupervisorEvent::Connected), SupervisorAction::Swap));
    match supervisor.step(&mut shared, SupervisorEvent::Done) {
        SupervisorAction::Settle(wait) => assert_eq!(wait, Duration::from_millis(7)),
        _ => panic!("no settle delay after the swap"),
    }
    assert_eq!(supervisor.phase(), SupervisorPhase::Trailing);
    assert!(matches!(supervisor.step(&mut shared, SupervisorEvent::Done), SupervisorAction::Retire));
    match supervisor.step(&mut shared, SupervisorEvent::Done) {
        SupervisorAction::Wait { refresh } => assert_eq!(refresh, Some(Duration::from_millis(60_000))),
        _ => panic!("the cycle did not end in a wait"),
    }
    assert!(!shared.is_reconnecting());
}

#[test]
fn failed_attempt_is_tried_again() {
    let mut supervisor = supervisor(0, false);
    let mut shared = ReconnectState::new();
    for _ in 0..3 {
        supervisor.step(&mut shared, SupervisorEvent::Woken);
        supervisor.step(&mut shared, SupervisorEvent::Done);
        assert!(shared.is_reconnecting());
        let action = supervisor.step(&mut shared, SupervisorEvent::ConnectFailed);
        assert!(matches!(action, SupervisorAction::Wait { refresh: None }));
        assert!(!shared.is_reconnecting());
        assert!(shared.is_wake_pending());
    }
}

#[test]
fn abort_stops_the_supervisor_in_any_phase() {
    let events = [
        SupervisorEvent::Woken,
        SupervisorEvent::Done,
        SupervisorEvent::Done,
        SupervisorEvent::Connected,
        SupervisorEvent::Done,
        SupervisorEvent::Done,
    ];
    for steps in 0..=events.len() {
        let mut supervisor = supervisor(0, true);
        let mut shared = ReconnectState::new();
        for event in &events[..steps] {
            supervisor.step(&mut shared, *event);
        }
        assert!(matches!(supervisor.step(&mut shared, SupervisorEvent::Aborted), SupervisorAction::Stop));
        assert_eq!(supervisor.phase(), SupervisorPhase::Stopped);
        for event in [SupervisorEvent::Woken, SupervisorEvent::Done, SupervisorEvent::Connected] {
            assert!(matches!(supervisor.step(&mut shared, event), SupervisorAction::Stop));
        }
    }
}

#[test]
fn bootstrap_messages_go_out_before_the_reader_starts() {
    let mut config = WebSocketConfig::new();
    config.url_prefix = "wss://example.com".to_owned();
    let mut inner = ConnectionInner::new(&config, "/stream");
    assert_eq!(inner.url(), "wss://example.com/stream");
    let mut handler = Recorder::new();
    let mut setup = inner.start_connection(&mut handler);
    assert_eq!(handler.started, 1);
    assert_eq!(setup.phase(), SetupPhase::Connecting);
    // nothing is sent before the transport stands
    assert!(matches!(setup.step(&mut inner, SetupEvent::Sent), SetupAction::Ignore));
    let mut sent = Vec::new();
    let mut action = setup.step(&mut inner, SetupEvent::Connected);
    let connection = loop {
        match action {
            SetupAction::Send(message) => {
                sent.push(message);
                action = setup.step(&mut inner, SetupEvent::Sent);
            }
            SetupAction::Ready { connection } => break connection,
            _ => panic!("the setup neither sent nor became ready"),
        }
    };
    assert_eq!(sent, vec![text("auth"), text("subscribe")]);
    assert_eq!(setup.sent(), 2);
    assert_eq!(setup.phase(), SetupPhase::Ready);
    assert!(!connection);
    assert!(inner.connection_id());
    assert!(matches!(setup.step(&mut inner, SetupEvent::Sent), SetupAction::Ignore));
}

#[test]
fn connection_tags_alternate() {
    let mut inner = ConnectionInner::new(&WebSocketConfig::new(), "ws://localhost");
    let mut tags = Vec::new();
    for _ in 0..4 {
        let mut setup = ConnectionSetup::new(Vec::new());
        match setup.step(&mut inner, SetupEvent::Connected) {
            SetupAction::Ready { connection } => tags.push(connection),
            _ => panic!("a setup without bootstrap messages was not ready at once"),
        }
    }
    assert_eq!(tags, vec![false, true, false, true]);
}

#[test]
fn failed_bootstrap_gives_the_connection_up() {
    let mut inner = ConnectionInner::new(&WebSocketConfig::new(), "ws://localhost");
    let mut setup = ConnectionSetup::new(vec![text("a"), text("b")]);
    assert!(matches!(setup.step(&mut inner, SetupEvent::Connected), SetupAction::Send(_)));
    assert!(matches!(setup.step(&mut inner, SetupEvent::Sent), SetupAction::Send(_)));
    assert!(matches!(setup.step(&mut inner, SetupEvent::SendFailed), SetupAction::Fail));
    assert_eq!(setup.phase(), SetupPhase::Failed);
    assert_eq!(setup.sent(), 1);
    // the tag was not used
    assert!(!inner.connection_id());
    assert!(matches!(setup.step(&mut inner, SetupEvent::Sent), SetupAction::Ignore));
}
