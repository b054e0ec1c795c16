use roster_relay::bridge::{bridge_decide, BridgeDecision, Frame, PollFailure};
use roster_relay::event::{EventType, RosterEvent};
use roster_relay::fetcher::{classify_event_type, fetch_query, listen_command, row_to_event};
use roster_relay::session::{session_step, Action, SessionError, SessionEvent, SessionState};
use roster_relay::supervisor::{supervisor_on_failure, RETRY_DELAY_MS};

const CHANNEL: u64 = 777;

fn jane() -> RosterEvent {
    RosterEvent {
        event_type: EventType::Added,
        sequence_number: 42,
        display_name: "Jane".to_string(),
        created_at: 1111,
        changed_at: 2222,
    }
}

const JANE_TEXT: &str = "\u{2705} **ADDED TO ROSTER** \u{2705}\n**#42** - Jane";

#[test]
fn connect_success_subscribes() {
    let (s, a) = session_step(SessionState::Connecting, SessionEvent::Connected, CHANNEL);
    assert_eq!(s, SessionState::Subscribing);
    assert_eq!(a, Action::IssueSubscribe);
}

#[test]
fn connect_failure_is_fatal() {
    let (s, a) = session_step(SessionState::Connecting, SessionEvent::ConnectFailed, CHANNEL);
    assert_eq!(s, SessionState::Failed(SessionError::Connection));
    assert_eq!(a, Action::Nothing);
}

#[test]
fn subscribe_success_starts_listening() {
    let (s, a) = session_step(SessionState::Subscribing, SessionEvent::Subscribed, CHANNEL);
    assert_eq!(s, SessionState::Listening);
    assert_eq!(a, Action::AwaitNext);
}

#[test]
fn subscribe_failure_is_fatal() {
    let (s, a) = session_step(SessionState::Subscribing, SessionEvent::SubscribeFailed, CHANNEL);
    assert_eq!(s, SessionState::Failed(SessionError::Subscribe));
    assert_eq!(a, Action::Nothing);
}

#[test]
fn notification_while_listening_fetches_once() {
    let (s, a) = session_step(SessionState::Listening, SessionEvent::NotificationArrived, CHANNEL);
    assert_eq!(s, SessionState::Listening);
    assert_eq!(a, Action::RunFetch);
}

#[test]
fn empty_fetch_posts_nothing_and_waits() {
    let (s, a) = session_step(SessionState::Listening, SessionEvent::Fetched(None), CHANNEL);
    assert_eq!(s, SessionState::Listening);
    assert_eq!(a, Action::AwaitNext);
}

#[test]
fn fetched_row_is_posted_to_the_channel() {
    let (s, a) = session_step(SessionState::Listening, SessionEvent::Fetched(Some(jane())), CHANNEL);
    assert_eq!(s, SessionState::Listening);
    match a {
        Action::Post(m) => {
            assert_eq!(m.target_channel, CHANNEL);
            assert_eq!(m.text, JANE_TEXT);
        }
        other => panic!("expected a post, got {:?}", other),
    }
}

#[test]
fn fetch_failure_is_fatal() {
    let (s, a) = session_step(SessionState::Listening, SessionEvent::FetchFailed, CHANNEL);
    assert_eq!(s, SessionState::Failed(SessionError::Query));
    assert_eq!(a, Action::Nothing);
}

#[test]
fn closed_queue_is_fatal() {
    let (s, a) = session_step(SessionState::Listening, SessionEvent::QueueClosed, CHANNEL);
    assert_eq!(s, SessionState::Failed(SessionError::Connection));
    assert_eq!(a, Action::Nothing);
}

#[test]
fn post_failure_is_absorbed() {
    let (s, a) = session_step(SessionState::Listening, SessionEvent::PostFailed, CHANNEL);
    assert_eq!(s, SessionState::Listening);
    assert_eq!(a, Action::AwaitNext);
}

#[test]
fn post_failure_does_not_stop_later_cycles() {
    let (s, _) = session_step(SessionState::Listening, SessionEvent::PostFailed, CHANNEL);
    let (s, a) = session_step(s, SessionEvent::NotificationArrived, CHANNEL);
    assert_eq!(s, SessionState::Listening);
    assert_eq!(a, Action::RunFetch);
}

#[test]
fn failed_state_ignores_everything() {
    let failed = SessionState::Failed(SessionError::Query);
    let (s, a) = session_step(failed, SessionEvent::NotificationArrived, CHANNEL);
    assert_eq!(s, failed);
    assert_eq!(a, Action::Nothing);
    let (s, a) = session_step(failed, SessionEvent::Connected, CHANNEL);
    assert_eq!(s, failed);
    assert_eq!(a, Action::Nothing);
}

#[test]
fn notifications_are_ignored_before_listening() {
    let (s, a) = session_step(SessionState::Connecting, SessionEvent::NotificationArrived, CHANNEL);
    assert_eq!(s, SessionState::Connecting);
    assert_eq!(a, Action::Nothing);
    let (s2, a2) = session_step(SessionState::Subscribing, SessionEvent::NotificationArrived, CHANNEL);
    assert_eq!(s2, SessionState::Subscribing);
    assert_eq!(a2, Action::Nothing);
}

// Two notifications that resolve to the same newest row produce two
// identical posts: duplicates are deliberately not filtered.
#[test]
fn duplicate_rows_post_twice() {
    let mut s = SessionState::Listening;
    let mut texts: Vec<String> = Vec::new();
    for _ in 0..2 {
        let (s1, a1) = session_step(s, SessionEvent::NotificationArrived, CHANNEL);
        assert_eq!(a1, Action::RunFetch);
        let (s2, a2) = session_step(s1, SessionEvent::Fetched(Some(jane())), CHANNEL);
        match a2 {
            Action::Post(m) => texts.push(m.text),
            other => panic!("expected a post, got {:?}", other),
        }
        let (s3, a3) = session_step(s2, SessionEvent::Posted, CHANNEL);
        assert_eq!(a3, Action::AwaitNext);
        s = s3;
    }
    assert_eq!(texts.len(), 2);
    assert_eq!(texts[0], texts[1]);
    assert_eq!(texts[0], JANE_TEXT);
}

// End to end: notification -> fetch returns the row -> exactly one post of
// the expected text to the configured channel.
#[test]
fn end_to_end_single_post() {
    let s = SessionState::Listening;
    let (s, a) = session_step(s, SessionEvent::NotificationArrived, CHANNEL);
    assert_eq!(a, Action::RunFetch);
    let (s, a) = session_step(s, SessionEvent::Fetched(Some(jane())), CHANNEL);
    let mut posts = 0;
    if let Action::Post(m) = a {
        posts += 1;
        assert_eq!(m.target_channel, CHANNEL);
        assert_eq!(m.text, JANE_TEXT);
    }
    assert_eq!(posts, 1);
    let (_, a) = session_step(s, SessionEvent::Posted, CHANNEL);
    assert_eq!(a, Action::AwaitNext);
}

#[test]
fn supervisor_restarts_after_fixed_delay() {
    for err in [SessionError::Connection, SessionError::Subscribe, SessionError::Query] {
        let d = supervisor_on_failure(err);
        assert_eq!(d.delay_ms, 5000);
        assert_eq!(d.delay_ms, RETRY_DELAY_MS);
        assert_eq!(d.next_state, SessionState::Connecting);
        assert!(!d.log_text.is_empty());
    }
}

#[test]
fn supervisor_log_names_the_error() {
    assert_eq!(
        supervisor_on_failure(SessionError::Connection).log_text,
        "session error: data-store connection lost"
    );
    assert_eq!(
        supervisor_on_failure(SessionError::Subscribe).log_text,
        "session error: subscribe command failed"
    );
    assert_eq!(
        supervisor_on_failure(SessionError::Query).log_text,
        "session error: fetch query failed"
    );
}

// A connection loss while listening: the session fails, the supervisor
// waits the fixed delay, and the rebuilt session re-issues the subscribe
// command before any notification triggers a fetch.
#[test]
fn recovery_resubscribes_before_accepting_notifications() {
    let (s, _) = session_step(SessionState::Listening, SessionEvent::QueueClosed, CHANNEL);
    let err = match s {
        SessionState::Failed(e) => e,
        other => panic!("expected a failed session, got {:?}", other),
    };
    let d = supervisor_on_failure(err);
    assert_eq!(d.delay_ms, RETRY_DELAY_MS);
    let s = d.next_state;
    assert_eq!(s, SessionState::Connecting);
    // A notification that arrives before the new session listens is ignored.
    let (s, a) = session_step(s, SessionEvent::NotificationArrived, CHANNEL);
    assert_eq!(a, Action::Nothing);
    let (s, a) = session_step(s, SessionEvent::Connected, CHANNEL);
    assert_eq!(a, Action::IssueSubscribe);
    let (s, a) = session_step(s, SessionEvent::Subscribed, CHANNEL);
    assert_eq!(a, Action::AwaitNext);
    let (_, a) = session_step(s, SessionEvent::NotificationArrived, CHANNEL);
    assert_eq!(a, Action::RunFetch);
}

#[test]
fn bridge_forwards_only_notifications() {
    assert_eq!(bridge_decide(Ok(Frame::Notification)), BridgeDecision::Forward);
    assert_eq!(bridge_decide(Ok(Frame::Other)), BridgeDecision::Drop);
    assert_eq!(bridge_decide(Err(PollFailure {})), BridgeDecision::Stop);
}

#[test]
fn subscribe_and_query_texts() {
    assert_eq!(listen_command(), "LISTEN roster_changes");
    assert_eq!(
        fetch_query(),
        "SELECT event_type, number, name, ao_datetime, event_time FROM roster_changes ORDER BY event_time DESC LIMIT 1"
    );
}

#[test]
fn event_type_classification() {
    assert_eq!(classify_event_type("added"), EventType::Added);
    assert_eq!(classify_event_type("removed"), EventType::Removed);
    assert_eq!(classify_event_type("renamed"), EventType::Other);
    assert_eq!(classify_event_type(""), EventType::Other);
    assert_eq!(classify_event_type("ADDED"), EventType::Other);
}

#[test]
fn row_to_event_keeps_all_columns() {
    let e = row_to_event("removed", 7, "Sam".to_string(), 10, 20);
    assert_eq!(e.event_type, EventType::Removed);
    assert_eq!(e.sequence_number, 7);
    assert_eq!(e.display_name, "Sam");
    assert_eq!(e.created_at, 10);
    assert_eq!(e.changed_at, 20);
}
