//! The per-session state machine of the relay pipeline.
//!
//! A session is one `Connecting -> Subscribing -> Listening -> Failed`
//! lifecycle. The step function here decides every transition and every
//! action; the surrounding runtime only performs the actions (connect,
//! subscribe, fetch, post) and feeds the outcomes back in as events.

use vstd::prelude::*;
use crate::event::{RosterEvent, RosterEventView};
use crate::format::{build_outbound, spec_format, OutboundMessage, OutboundMessageView};

verus! {

/// The session-fatal failures. A post failure is deliberately absent:
/// it never ends a session.
#[derive(Clone, Copy, PartialEq, Eq, Structural, Debug)]
pub enum SessionError {
    /// Failure to establish or maintain the data-store connection;
    /// a closed notification queue surfaces as this too.
    Connection,
    /// Failure to issue the subscribe command.
    Subscribe,
    /// Failure executing the fetch query.
    Query,
}

/// The state of one session instance.
#[derive(Clone, Copy, PartialEq, Eq, Structural, Debug)]
pub enum SessionState {
    Connecting,
    Subscribing,
    Listening,
    Failed(SessionError),
}

/// An outcome of the runtime's work, fed to the step function.
pub enum SessionEvent {
    /// The data-store connection was established.
    Connected,
    /// The data-store connection could not be established.
    ConnectFailed,
    /// The subscribe command was accepted.
    Subscribed,
    /// The subscribe command failed.
    SubscribeFailed,
    /// A notification was taken from the internal queue.
    NotificationArrived,
    /// The internal queue is closed: the bridge has terminated.
    QueueClosed,
    /// The fetch query finished; `None` means the change-log table is empty.
    Fetched(Option<RosterEvent>),
    /// The fetch query failed.
    FetchFailed,
    /// The post call succeeded.
    Posted,
    /// The post call failed. Non-fatal.
    PostFailed,
}

/// Mathematical image of a [`SessionEvent`].
pub enum SessionEventView {
    Connected,
    ConnectFailed,
    Subscribed,
    SubscribeFailed,
    NotificationArrived,
    QueueClosed,
    Fetched(Option<RosterEventView>),
    FetchFailed,
    Posted,
    PostFailed,
}

impl View for SessionEvent {
    type V = SessionEventView;

    open spec fn view(&self) -> SessionEventView {
        match self {
            SessionEvent::Connected => SessionEventView::Connected,
            SessionEvent::ConnectFailed => SessionEventView::ConnectFailed,
            SessionEvent::Subscribed => SessionEventView::Subscribed,
            SessionEvent::SubscribeFailed => SessionEventView::SubscribeFailed,
            SessionEvent::NotificationArrived => SessionEventView::NotificationArrived,
            SessionEvent::QueueClosed => SessionEventView::QueueClosed,
            SessionEvent::Fetched(o) => SessionEventView::Fetched(
                match o {
                    Some(e) => Some(e@),
                    None => None,
                },
            ),
            SessionEvent::FetchFailed => SessionEventView::FetchFailed,
            SessionEvent::Posted => SessionEventView::Posted,
            SessionEvent::PostFailed => SessionEventView::PostFailed,
        }
    }
}

/// What the runtime must do next.
#[derive(PartialEq, Eq, Debug)]
pub enum Action {
    /// Nothing: either the event was not one this state reacts to, or the
    /// session is over and the supervisor takes it from here.
    Nothing,
    /// Issue the subscribe command on the designated channel.
    IssueSubscribe,
    /// Block on the internal queue for the next notification.
    AwaitNext,
    /// Run the fetch query for the newest change-log row.
    RunFetch,
    /// Post the finished message to the chat collaborator.
    Post(OutboundMessage),
}

/// Mathematical image of an [`Action`].
pub enum ActionView {
    Nothing,
    IssueSubscribe,
    AwaitNext,
    RunFetch,
    Post(OutboundMessageView),
}

impl View for Action {
    type V = ActionView;

    open spec fn view(&self) -> ActionView {
        match self {
            Action::Nothing => ActionView::Nothing,
            Action::IssueSubscribe => ActionView::IssueSubscribe,
            Action::AwaitNext => ActionView::AwaitNext,
            Action::RunFetch => ActionView::RunFetch,
            Action::Post(m) => ActionView::Post(m@),
        }
    }
}

/// A step's result: the state after the event, and the action it demands.
pub struct StepView {
    pub state: SessionState,
    pub action: ActionView,
}

/// The whole transition relation of a session, as a total function.
///
/// - `Connecting`: success moves to `Subscribing` and issues the subscribe
///   command; failure is fatal.
/// - `Subscribing`: success moves to `Listening`; failure is fatal.
/// - `Listening`: each notification demands exactly one fetch; a fetched row
///   demands exactly one post of its formatted text; an empty fetch goes
///   back to waiting; a post outcome — success or failure — goes back to
///   waiting; a fetch failure or a closed queue is fatal.
/// - `Failed` is terminal: every event is ignored.
/// - An event that its state does not react to changes nothing.
pub open spec fn spec_step(s: SessionState, e: SessionEventView, channel: u64) -> StepView {
    match (s, e) {
        (SessionState::Connecting, SessionEventView::Connected) => StepView {
            state: SessionState::Subscribing,
            action: ActionView::IssueSubscribe,
        },
        (SessionState::Connecting, SessionEventView::ConnectFailed) => StepView {
            state: SessionState::Failed(SessionError::Connection),
            action: ActionView::Nothing,
        },
        (SessionState::Subscribing, SessionEventView::Subscribed) => StepView {
            state: SessionState::Listening,
            action: ActionView::AwaitNext,
        },
        (SessionState::Subscribing, SessionEventView::SubscribeFailed) => StepView {
            state: SessionState::Failed(SessionError::Subscribe),
            action: ActionView::Nothing,
        },
        (SessionState::Listening, SessionEventView::NotificationArrived) => StepView {
            state: SessionState::Listening,
            action: ActionView::RunFetch,
        },
        (SessionState::Listening, SessionEventView::QueueClosed) => StepView {
            state: SessionState::Failed(SessionError::Connection),
            action: ActionView::Nothing,
        },
        (SessionState::Listening, SessionEventView::Fetched(Some(ev))) => StepView {
            state: SessionState::Listening,
            action: ActionView::Post(
                OutboundMessageView { target_channel: channel, text: spec_format(ev) },
            ),
        },
        (SessionState::Listening, SessionEventView::Fetched(None)) => StepView {
            state: SessionState::Listening,
            action: ActionView::AwaitNext,
        },
        (SessionState::Listening, SessionEventView::FetchFailed) => StepView {
            state: SessionState::Failed(SessionError::Query),
            action: ActionView::Nothing,
        },
        (SessionState::Listening, SessionEventView::Posted) => StepView {
            state: SessionState::Listening,
            action: ActionView::AwaitNext,
        },
        (SessionState::Listening, SessionEventView::PostFailed) => StepView {
            state: SessionState::Listening,
            action: ActionView::AwaitNext,
        },
        _ => StepView { state: s, action: ActionView::Nothing },
    }
}

/// Executable step function, exactly `spec_step`. `channel` is the
/// destination channel identifier for posts.
pub fn session_step(s: SessionState, e: SessionEvent, channel: u64) -> (r: (SessionState, Action))
    ensures
        r.0 == spec_step(s, e@, channel).state,
        r.1@ == spec_step(s, e@, channel).action,
{
    match (s, e) {
        (SessionState::Connecting, SessionEvent::Connected) => (
            SessionState::Subscribing,
            Action::IssueSubscribe,
        ),
        (SessionState::Connecting, SessionEvent::ConnectFailed) => (
            SessionState::Failed(SessionError::Connection),
            Action::Nothing,
        ),
        (SessionState::Subscribing, SessionEvent::Subscribed) => (
            SessionState::Listening,
            Action::AwaitNext,
        ),
        (SessionState::Subscribing, SessionEvent::SubscribeFailed) => (
            SessionState::Failed(SessionError::Subscribe),
            Action::Nothing,
        ),
        (SessionState::Listening, SessionEvent::NotificationArrived) => (
            SessionState::Listening,
            Action::RunFetch,
        ),
        (SessionState::Listening, SessionEvent::QueueClosed) => (
            SessionState::Failed(SessionError::Connection),
            Action::Nothing,
        ),
        (SessionState::Listening, SessionEvent::Fetched(Some(ev))) => (
            SessionState::Listening,
            Action::Post(build_outbound(channel, &ev)),
        ),
        (SessionState::Listening, SessionEvent::Fetched(None)) => (
            SessionState::Listening,
            Action::AwaitNext,
        ),
        (SessionState::Listening, SessionEvent::FetchFailed) => (
            SessionState::Failed(SessionError::Query),
            Action::Nothing,
        ),
        (SessionState::Listening, SessionEvent::Posted) => (
            SessionState::Listening,
            Action::AwaitNext,
        ),
        (SessionState::Listening, SessionEvent::PostFailed) => (
            SessionState::Listening,
            Action::AwaitNext,
        ),
        (st, _) => (st, Action::Nothing),
    }
}

/// The state a session run reaches after the events `es`, started at `s`.
pub open spec fn spec_run(s: SessionState, es: Seq<SessionEventView>, channel: u64) -> SessionState
    decreases es.len(),
{
    if es.len() == 0 {
        s
    } else {
        spec_step(spec_run(s, es.drop_last(), channel), es.last(), channel).state
    }
}

/// The state just before event `i` of a run.
pub open spec fn spec_state_at(
    s: SessionState,
    es: Seq<SessionEventView>,
    channel: u64,
    i: int,
) -> SessionState {
    spec_run(s, es.take(i), channel)
}

/// The action demanded by event `i` of a run.
pub open spec fn spec_action_at(
    s: SessionState,
    es: Seq<SessionEventView>,
    channel: u64,
    i: int,
) -> ActionView
    recommends
        0 <= i < es.len(),
{
    spec_step(spec_state_at(s, es, channel, i), es[i], channel).action
}

/// Law: in any run, a fetch is demanded at step `i` exactly when the session
/// is `Listening` there and the event is a notification — so each
/// notification received while listening triggers exactly one fetch, in
/// receipt order, and no notification is accepted outside `Listening`.
/// Likewise a post is demanded exactly when a fetch returned a row while
/// listening, and its text is exactly the formatted text of that row.
pub proof fn lemma_listening_cycles(
    s: SessionState,
    es: Seq<SessionEventView>,
    channel: u64,
    i: int,
)
    requires
        0 <= i < es.len(),
    ensures
        (spec_action_at(s, es, channel, i) == ActionView::RunFetch) <==> (spec_state_at(
            s,
            es,
            channel,
            i,
        ) == SessionState::Listening && es[i] == SessionEventView::NotificationArrived),
        (spec_action_at(s, es, channel, i) matches ActionView::Post(_)) <==> (spec_state_at(
            s,
            es,
            channel,
            i,
        ) == SessionState::Listening && (es[i] matches SessionEventView::Fetched(Some(_)))),
        forall|ev: RosterEventView|
            (spec_state_at(s, es, channel, i) == SessionState::Listening && es[i]
                == SessionEventView::Fetched(Some(ev))) ==> spec_action_at(s, es, channel, i)
                == ActionView::Post(
                OutboundMessageView { target_channel: channel, text: spec_format(ev) },
            ),
{
}

/// Law: an empty fetch never posts — if the event at `i` is `Fetched(None)`,
/// the action is to go back to waiting and the session keeps listening.
pub proof fn lemma_empty_fetch_waits(
    s: SessionState,
    es: Seq<SessionEventView>,
    channel: u64,
    i: int,
)
    requires
        0 <= i < es.len(),
        spec_state_at(s, es, channel, i) == SessionState::Listening,
        es[i] == SessionEventView::Fetched(None::<RosterEventView>),
    ensures
        spec_action_at(s, es, channel, i) == ActionView::AwaitNext,
        spec_state_at(s, es, channel, i + 1) == SessionState::Listening,
{
    assert(es.take(i + 1).drop_last() =~= es.take(i));
    assert(es.take(i + 1).last() == es[i]);
}

/// Law: a post failure is absorbed — the session stays `Listening` and goes
/// back to waiting, so later notifications are processed normally.
pub proof fn lemma_post_failure_absorbed(
    s: SessionState,
    es: Seq<SessionEventView>,
    channel: u64,
    i: int,
)
    requires
        0 <= i < es.len(),
        spec_state_at(s, es, channel, i) == SessionState::Listening,
        es[i] == SessionEventView::PostFailed,
    ensures
        spec_action_at(s, es, channel, i) == ActionView::AwaitNext,
        spec_state_at(s, es, channel, i + 1) == SessionState::Listening,
{
    assert(es.take(i + 1).drop_last() =~= es.take(i));
    assert(es.take(i + 1).last() == es[i]);
}

/// Law: deduplication is deliberately absent. Two fetches that return the
/// same row — as happens when notifications arrive faster than fetches
/// complete and each resolves to the same newest row — demand two posts
/// with identical text, one per notification.
pub proof fn lemma_duplicate_rows_post_twice(
    s: SessionState,
    es: Seq<SessionEventView>,
    channel: u64,
    i: int,
    j: int,
    ev: RosterEventView,
)
    requires
        0 <= i < es.len(),
        0 <= j < es.len(),
        spec_state_at(s, es, channel, i) == SessionState::Listening,
        spec_state_at(s, es, channel, j) == SessionState::Listening,
        es[i] == SessionEventView::Fetched(Some(ev)),
        es[j] == SessionEventView::Fetched(Some(ev)),
    ensures
        spec_action_at(s, es, channel, i) == ActionView::Post(
            OutboundMessageView { target_channel: channel, text: spec_format(ev) },
        ),
        spec_action_at(s, es, channel, i) == spec_action_at(s, es, channel, j),
{
}

/// Law: a fresh session run that is `Subscribing` or beyond has issued the
/// subscribe command: some earlier step demanded `IssueSubscribe`. In
/// particular a new session reaches `Listening` — the only state that
/// accepts notifications — only after re-issuing the subscribe command.
pub proof fn lemma_subscribe_before_listening(es: Seq<SessionEventView>, channel: u64)
    requires
        spec_run(SessionState::Connecting, es, channel) == SessionState::Subscribing
            || spec_run(SessionState::Connecting, es, channel) == SessionState::Listening,
    ensures
        exists|j: int|
            0 <= j < es.len() && spec_action_at(SessionState::Connecting, es, channel, j)
                == ActionView::IssueSubscribe,
    decreases es.len(),
{
    if es.len() == 0 {
    } else {
        let prev = spec_run(SessionState::Connecting, es.drop_last(), channel);
        if prev == SessionState::Connecting {
            // The last step itself moved out of `Connecting`, so it was the
            // `Connected` event, whose action is the subscribe command.
            let j = es.len() - 1;
            assert(es.take(es.len() as int) =~= es);
            assert(spec_state_at(SessionState::Connecting, es, channel, j) == prev);
            assert(spec_action_at(SessionState::Connecting, es, channel, j)
                == ActionView::IssueSubscribe);
        } else {
            lemma_subscribe_before_listening(es.drop_last(), channel);
            let j = choose|j: int|
                0 <= j < es.drop_last().len() && spec_action_at(
                    SessionState::Connecting,
                    es.drop_last(),
                    channel,
                    j,
                ) == ActionView::IssueSubscribe;
            assert(es.drop_last().take(j) =~= es.take(j));
            assert(es.drop_last()[j] == es[j]);
            assert(spec_action_at(SessionState::Connecting, es, channel, j)
                == ActionView::IssueSubscribe);
        }
    }
}

} // verus!
