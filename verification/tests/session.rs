use crypto_botters::websocket::{
    ConnectionSetup, Dispatch, Frame, Inbound, Session, SetupAction, SetupEvent, SupervisorAction,
    SupervisorEvent, SupervisorPhase, WebSocketConfig, WebSocketHandler, WebSocketMessage,
};
use std::time::Duration;

fn session(suppress: bool) -> Session {
    let mut config = WebSocketConfig::new();
    config.url_prefix = "wss://example.com".to_owned();
    config.connect_cooldown = Duration::from_millis(10);
    config.reconnection_wait = Duration::from_millis(3);
    config.ignore_duplicate_during_reconnection = suppress;
    Session::new(&config, "/stream")
}

fn frame(connection: bool, s: &str) -> Inbound {
    Inbound::Frame { connection, frame: Frame::Text(s.to_owned()) }
}

/// Takes the supervisor from waiting to the opening of a window.
fn open_window(session: &mut Session) {
    assert!(matches!(session.supervise(SupervisorEvent::Woken), SupervisorAction::Cooldown(_)));
    session.supervise(SupervisorEvent::Done);
    assert!(session.is_reconnecting());
}

/// Takes the supervisor from the opening of a window to waiting again.
fn close_window(session: &mut Session, suppress: bool) {
    if suppress {
        assert!(matches!(session.supervise(SupervisorEvent::Done), SupervisorAction::Connect));
    }
    assert!(matches!(session.supervise(SupervisorEvent::Connected), SupervisorAction::Swap));
    if suppress {
        assert!(matches!(session.supervise(SupervisorEvent::Done), SupervisorAction::Settle(_)));
    }
    assert!(matches!(session.supervise(SupervisorEvent::Done), SupervisorAction::Retire));
    assert!(session.is_reconnecting());
    assert!(matches!(session.supervise(SupervisorEvent::Done), SupervisorAction::Wait { .. }));
    assert!(!session.is_reconnecting());
}

struct Counter(u32);

impl WebSocketHandler for Counter {
    fn handle_start(&mut self) -> Vec<WebSocketMessage> {
        vec![WebSocketMessage::Text("hello".to_owned())]
    }

    fn handle_message(&mut self, _: WebSocketMessage) -> Vec<WebSocketMessage> {
        self.0 += 1;
        vec![]
    }
}

#[test]
fn a_new_session_waits() {
    let session = session(true);
    assert_eq!(session.url(), "wss://example.com/stream");
    assert!(!session.is_reconnecting());
    assert!(!session.is_wake_pending());
    assert!(!session.is_stopped());
    assert_eq!(session.phase(), SupervisorPhase::Waiting);
    assert!(matches!(session.action(), SupervisorAction::Wait { refresh: None }));
}

#[test]
fn session_refuses_requests_exactly_while_a_window_is_open() {
    let mut session = session(true);
    assert!(session.request_reconnect());
    assert!(session.is_wake_pending());
    session.supervise(SupervisorEvent::Woken);
    assert!(!session.is_wake_pending());
    // still cooling down: no window yet
    assert!(session.request_reconnect());
    session.supervise(SupervisorEvent::Done);
    assert!(!session.is_wake_pending());
    for event in [
        SupervisorEvent::Done,
        SupervisorEvent::Connected,
        SupervisorEvent::Done,
        SupervisorEvent::Done,
    ] {
        assert!(session.is_reconnecting());
        assert!(!session.request_reconnect());
        assert!(!session.is_wake_pending());
        session.supervise(event);
    }
    assert_eq!(session.phase(), SupervisorPhase::Retiring);
    assert!(!session.request_reconnect());
    session.supervise(SupervisorEvent::Done);
    assert!(!session.is_reconnecting());
    assert!(session.request_reconnect());
}

#[test]
fn session_delivers_duplicates_once_across_the_swap() {
    let mut session = session(true);
    // before the window everything is delivered
    assert!(matches!(session.dispatch(frame(false, "m")), Dispatch::Deliver(_)));
    assert!(matches!(session.dispatch(frame(false, "m")), Dispatch::Deliver(_)));
    open_window(&mut session);
    assert!(matches!(session.dispatch(frame(false, "t1")), Dispatch::Deliver(_)));
    assert!(matches!(session.dispatch(frame(false, "t2")), Dispatch::Deliver(_)));
    session.supervise(SupervisorEvent::Done);
    session.supervise(SupervisorEvent::Connected);
    // the new connection repeats what the old one said, and goes on
    assert!(matches!(session.dispatch(frame(true, "t1")), Dispatch::Drop));
    assert!(matches!(session.dispatch(frame(true, "t2")), Dispatch::Drop));
    assert!(matches!(session.dispatch(frame(true, "t3")), Dispatch::Deliver(_)));
    // the old connection catches up
    assert!(matches!(session.dispatch(frame(false, "t3")), Dispatch::Drop));
    session.supervise(SupervisorEvent::Done);
    session.supervise(SupervisorEvent::Done);
    session.supervise(SupervisorEvent::Done);
    assert!(!session.is_reconnecting());
    // after the window everything is delivered again
    assert!(matches!(session.dispatch(frame(true, "t3")), Dispatch::Deliver(_)));
    assert!(matches!(session.dispatch(frame(true, "t3")), Dispatch::Deliver(_)));
}

#[test]
fn session_without_suppression_delivers_everything() {
    let mut session = session(false);
    open_window(&mut session);
    for connection in [false, true, true, false] {
        assert!(matches!(session.dispatch(frame(connection, "m")), Dispatch::Deliver(_)));
    }
    close_window(&mut session, false);
    assert!(matches!(session.dispatch(frame(true, "m")), Dispatch::Deliver(_)));
}

#[test]
fn session_windows_do_not_leak_into_each_other() {
    let mut session = session(true);
    open_window(&mut session);
    assert!(matches!(session.dispatch(frame(false, "m")), Dispatch::Deliver(_)));
    close_window(&mut session, true);
    open_window(&mut session);
    assert!(matches!(session.dispatch(frame(true, "m")), Dispatch::Deliver(_)));
    assert!(matches!(session.dispatch(frame(false, "m")), Dispatch::Drop));
}

#[test]
fn session_read_failure_wakes_the_supervisor() {
    let mut session = session(true);
    assert!(matches!(
        session.dispatch(Inbound::Failure { connection: false }),
        Dispatch::Reconnect { accepted: true }
    ));
    assert!(session.is_wake_pending());
    open_window(&mut session);
    assert!(matches!(
        session.dispatch(Inbound::Failure { connection: false }),
        Dispatch::Reconnect { accepted: false }
    ));
    assert!(!session.is_wake_pending());
    // a failed attempt leaves a wake-up of its own
    session.supervise(SupervisorEvent::Done);
    session.supervise(SupervisorEvent::ConnectFailed);
    assert!(session.is_wake_pending());
    assert!(!session.is_reconnecting());
    assert_eq!(session.phase(), SupervisorPhase::Waiting);
}

#[test]
fn session_torn_down_during_a_reconnect_delivers_nothing_more() {
    let mut session = session(true);
    let mut handler = Counter(0);
    open_window(&mut session);
    session.supervise(SupervisorEvent::Done);
    assert_eq!(session.phase(), SupervisorPhase::Connecting);
    assert!(session.feed_handler(&mut handler, frame(false, "m")).running);
    assert_eq!(handler.0, 1);
    // the session is dropped while the attempt is in flight
    assert!(matches!(session.supervise(SupervisorEvent::Aborted), SupervisorAction::Stop));
    assert!(!session.feed_handler(&mut handler, Inbound::Shutdown).running);
    assert!(session.is_stopped());
    assert!(!session.feed_handler(&mut handler, frame(true, "late")).running);
    assert!(matches!(session.dispatch(frame(true, "later")), Dispatch::Stopped));
    assert_eq!(handler.0, 1);
    // the attempt comes back to a supervisor that has stopped
    assert!(matches!(session.supervise(SupervisorEvent::Connected), SupervisorAction::Stop));
    assert!(matches!(session.supervise(SupervisorEvent::Done), SupervisorAction::Stop));
    assert_eq!(session.phase(), SupervisorPhase::Stopped);
}

#[test]
fn session_sets_connections_up_with_alternating_tags() {
    let mut session = session(true);
    let mut handler = Counter(0);
    let mut tags = Vec::new();
    for _ in 0..3 {
        let mut setup: ConnectionSetup = session.start_connection(&mut handler);
        match session.setup_connection(&mut setup, SetupEvent::Connected) {
            SetupAction::Send(message) => assert_eq!(message, WebSocketMessage::Text("hello".to_owned())),
            _ => panic!("the bootstrap message was not asked for"),
        }
        match session.setup_connection(&mut setup, SetupEvent::Sent) {
            SetupAction::Ready { connection } => tags.push(connection),
            _ => panic!("the connection did not become ready"),
        }
    }
    assert_eq!(tags, vec![false, true, false]);
    assert_eq!(session.url(), "wss://example.com/stream");
}
