use skyserver::feed::FeedAdapter;
use skyserver::message::{ChatError, ChatMessage};
use skyserver::session::{ChangeEvent, SessionAction, SessionEvent, SessionState, StreamingSession};

fn msg(username: &str, message: &str, datetime: i64) -> ChatMessage {
    ChatMessage { username: String::from(username), message: String::from(message), datetime }
}

fn live_session() -> StreamingSession {
    let mut s = StreamingSession::new();
    s.step(SessionEvent::Start { now: 1000 });
    s.step(SessionEvent::WelcomeSent);
    s.step(SessionEvent::FeedOpened);
    s
}

#[test]
fn stream_welcomes_then_forwards_new_message() {
    let mut s = StreamingSession::new();
    match s.step(SessionEvent::Start { now: 42 }) {
        SessionAction::SendWelcome(m) => {
            assert_eq!(m.username, "Server");
            assert_eq!(m.message, "Welcome back to the chat stream!");
            assert_eq!(m.datetime, 42);
        }
        other => panic!("unexpected first action {:?}", other),
    }
    assert_eq!(s.state, SessionState::Welcoming);
    assert_eq!(s.step(SessionEvent::WelcomeSent), SessionAction::OpenFeed);
    assert_eq!(s.step(SessionEvent::FeedOpened), SessionAction::Idle);
    let hi = ChangeEvent { position: 0, message: msg("u2", "hi", 1_000_000) };
    assert_eq!(s.step(SessionEvent::Inserted(hi.clone())), SessionAction::Forward(hi));
    assert_eq!(s.state, SessionState::Live);
}

#[test]
fn welcome_goes_live_even_when_send_failed() {
    let mut s = StreamingSession::new();
    s.step(SessionEvent::Start { now: 0 });
    assert_eq!(s.step(SessionEvent::WelcomeSent), SessionAction::OpenFeed);
    assert_eq!(s.state, SessionState::Live);
}

#[test]
fn nothing_is_forwarded_before_welcome() {
    let mut s = StreamingSession::new();
    let early = ChangeEvent { position: 0, message: msg("u", "early", 5) };
    assert_eq!(s.step(SessionEvent::Inserted(early)), SessionAction::Idle);
    assert_eq!(s.state, SessionState::Opening);
    assert_eq!(s.cursor, None);
}

#[test]
fn disconnect_releases_feed_and_closes() {
    let mut s = live_session();
    assert!(s.feed_open);
    let a = ChangeEvent { position: 3, message: msg("u", "a", 1) };
    s.step(SessionEvent::Inserted(a));
    assert_eq!(s.step(SessionEvent::TransportClosed), SessionAction::Release { close_feed: true });
    assert_eq!(s.state, SessionState::Closing);
    assert!(!s.feed_open);
    assert_eq!(s.step(SessionEvent::Released), SessionAction::Idle);
    assert_eq!(s.state, SessionState::Closed);
    let b = ChangeEvent { position: 4, message: msg("u", "b", 2) };
    assert_eq!(s.step(SessionEvent::Inserted(b)), SessionAction::Idle);
}

#[test]
fn feed_failure_and_shutdown_close_session() {
    let mut s = live_session();
    assert_eq!(s.step(SessionEvent::FeedClosed), SessionAction::Release { close_feed: true });
    assert_eq!(s.state, SessionState::Closing);
    let mut t = StreamingSession::new();
    t.step(SessionEvent::Start { now: 0 });
    t.step(SessionEvent::WelcomeSent);
    assert_eq!(t.step(SessionEvent::FeedUnavailable), SessionAction::Release { close_feed: false });
    let mut u = live_session();
    assert_eq!(u.step(SessionEvent::Shutdown), SessionAction::Release { close_feed: true });
}

#[test]
fn repeated_position_is_forwarded_once() {
    let mut s = live_session();
    let a = ChangeEvent { position: 7, message: msg("u", "a", 1) };
    assert_eq!(s.step(SessionEvent::Inserted(a.clone())), SessionAction::Forward(a.clone()));
    assert_eq!(s.step(SessionEvent::Inserted(a)), SessionAction::Idle);
    let older = ChangeEvent { position: 6, message: msg("u", "old", 0) };
    assert_eq!(s.step(SessionEvent::Inserted(older)), SessionAction::Idle);
    assert_eq!(s.cursor, Some(7));
}

#[test]
fn backlog_is_forwarded_in_store_order() {
    let mut s = live_session();
    let backlog = vec![
        ChangeEvent { position: 1, message: msg("a", "one", 10) },
        ChangeEvent { position: 2, message: msg("b", "two", 20) },
        ChangeEvent { position: 5, message: msg("c", "three", 20) },
    ];
    let actions = s.deliver_backlog(&backlog);
    let expected: Vec<SessionAction> = backlog.iter().cloned().map(SessionAction::Forward).collect();
    assert_eq!(actions, expected);
    assert_eq!(s.cursor, Some(5));
}

#[test]
fn two_sessions_do_not_share_progress() {
    let mut a = live_session();
    let mut b = live_session();
    let e = ChangeEvent { position: 0, message: msg("u", "x", 0) };
    a.step(SessionEvent::TransportClosed);
    assert_eq!(b.step(SessionEvent::Inserted(e.clone())), SessionAction::Forward(e));
    assert_eq!(a.state, SessionState::Closing);
}

#[test]
fn feed_numbers_inserts_and_reports_end() {
    let mut f = FeedAdapter::open();
    let first = f.receive(Some(Ok(Some(msg("u", "a", 1)))));
    assert_eq!(first, Some(SessionEvent::Inserted(ChangeEvent { position: 0, message: msg("u", "a", 1) })));
    let second = f.receive(Some(Ok(Some(msg("u", "b", 2)))));
    assert_eq!(second, Some(SessionEvent::Inserted(ChangeEvent { position: 1, message: msg("u", "b", 2) })));
    assert_eq!(f.receive(Some(Ok(None))), None);
    assert_eq!(f.receive(Some(Err(ChatError::FeedClosed))), Some(SessionEvent::FeedClosed));
    assert!(!f.open);
    assert_eq!(f.receive(Some(Ok(Some(msg("u", "c", 3))))), Some(SessionEvent::FeedClosed));
    let mut g = FeedAdapter::open();
    assert_eq!(g.receive(None), Some(SessionEvent::FeedClosed));
    g.close();
    g.close();
    assert!(!g.open);
}

#[test]
fn feed_closes_when_positions_run_out() {
    let mut f = FeedAdapter { next_position: u64::MAX, open: true };
    assert_eq!(f.receive(Some(Ok(Some(msg("u", "a", 1))))), Some(SessionEvent::FeedClosed));
    assert!(!f.open);
}

#[test]
fn live_feed_continues_after_backlog() {
    let mut s = live_session();
    let backlog = vec![
        ChangeEvent { position: 0, message: msg("a", "one", 10) },
        ChangeEvent { position: 1, message: msg("b", "two", 20) },
    ];
    s.deliver_backlog(&backlog);
    let mut f = FeedAdapter::starting_after(1);
    let live = f.receive(Some(Ok(Some(msg("c", "three", 30))))).expect("an event");
    let expected = ChangeEvent { position: 2, message: msg("c", "three", 30) };
    assert_eq!(live, SessionEvent::Inserted(expected.clone()));
    assert_eq!(s.step(live), SessionAction::Forward(expected));
    let mut g = FeedAdapter::starting_after(u64::MAX);
    assert!(!g.open);
    assert_eq!(g.receive(Some(Ok(Some(msg("d", "x", 0))))), Some(SessionEvent::FeedClosed));
}
