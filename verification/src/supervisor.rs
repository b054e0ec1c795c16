//! The outer retry policy: rebuild the whole pipeline after every
//! session-fatal error, forever, with a fixed delay and no backoff.

use vstd::prelude::*;
use crate::session::{SessionError, SessionState};

verus! {

/// The fixed delay between a session's failure and the next attempt.
pub const RETRY_DELAY_MS: u64 = 5000;

/// What the supervisor does after a session fails: log `log_text`, sleep
/// `delay_ms` milliseconds, then run a brand-new session from `next_state`.
pub struct RestartDirective {
    pub log_text: String,
    pub delay_ms: u64,
    pub next_state: SessionState,
}

/// The log line for each session-fatal error.
pub open spec fn spec_error_text(err: SessionError) -> Seq<char> {
    match err {
        SessionError::Connection => "session error: data-store connection lost"@,
        SessionError::Subscribe => "session error: subscribe command failed"@,
        SessionError::Query => "session error: fetch query failed"@,
    }
}

/// The supervisor's whole decision, for every session-fatal error alike:
/// log the error, wait exactly the fixed delay, and restart from
/// `Connecting` — it never gives up and never varies the delay.
pub fn supervisor_on_failure(err: SessionError) -> (d: RestartDirective)
    ensures
        d.log_text@ == spec_error_text(err),
        d.delay_ms == RETRY_DELAY_MS,
        d.next_state == SessionState::Connecting,
{
    let text = match err {
        SessionError::Connection => "session error: data-store connection lost",
        SessionError::Subscribe => "session error: subscribe command failed",
        SessionError::Query => "session error: fetch query failed",
    };
    RestartDirective {
        log_text: String::from_str(text),
        delay_ms: RETRY_DELAY_MS,
        next_state: SessionState::Connecting,
    }
}

} // verus!
