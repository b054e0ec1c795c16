//! What the event fetcher asks of the data store, and how a fetched row
//! becomes a structured event.
//!
//! Executing the query is the runtime's business; the library fixes the
//! subscription command, the query text, and the row-to-event mapping.

use vstd::prelude::*;
use crate::event::{EventType, RosterEvent};
use crate::text::str_eq;

verus! {

/// The command that subscribes the session to the notification channel.
pub fn listen_command() -> (r: &'static str)
    ensures
        r@ == "LISTEN roster_changes"@,
{
    "LISTEN roster_changes"
}

/// The fetch query: the single newest change-log row, newest first by
/// `event_time`, limit one.
pub fn fetch_query() -> (r: &'static str)
    ensures
        r@
            == "SELECT event_type, number, name, ao_datetime, event_time FROM roster_changes ORDER BY event_time DESC LIMIT 1"@,
{
    "SELECT event_type, number, name, ao_datetime, event_time FROM roster_changes ORDER BY event_time DESC LIMIT 1"
}

/// The event kind a row's `event_type` column encodes: `"added"` and
/// `"removed"` are the two recognized values; anything else is `Other`.
pub open spec fn spec_classify(s: Seq<char>) -> EventType {
    if s == "added"@ {
        EventType::Added
    } else if s == "removed"@ {
        EventType::Removed
    } else {
        EventType::Other
    }
}

/// Maps the `event_type` column's text to the event kind.
pub fn classify_event_type(s: &str) -> (t: EventType)
    ensures
        t == spec_classify(s@),
{
    if str_eq(s, "added") {
        EventType::Added
    } else if str_eq(s, "removed") {
        EventType::Removed
    } else {
        EventType::Other
    }
}

/// Builds the structured event from the columns of the fetched row,
/// keeping every field and classifying the `event_type` text.
pub fn row_to_event(
    event_type: &str,
    number: u64,
    name: String,
    created_at: i64,
    changed_at: i64,
) -> (e: RosterEvent)
    ensures
        e@.event_type == spec_classify(event_type@),
        e@.sequence_number == number,
        e@.display_name == name@,
        e@.created_at == created_at,
        e@.changed_at == changed_at,
{
    RosterEvent {
        event_type: classify_event_type(event_type),
        sequence_number: number,
        display_name: name,
        created_at,
        changed_at,
    }
}

} // verus!
