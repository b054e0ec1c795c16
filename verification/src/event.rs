//! The structured change event derived from the newest change-log row.

use vstd::prelude::*;

verus! {

/// The kind of roster change a change-log row records.
#[derive(Clone, Copy, PartialEq, Eq, Structural, Debug)]
pub enum EventType {
    Added,
    Removed,
    Other,
}

/// A structured change event. It lives for one relay cycle: built from the
/// single most-recent row of the change-log table, formatted, posted, dropped.
#[derive(PartialEq, Eq, Debug)]
pub struct RosterEvent {
    pub event_type: EventType,
    pub sequence_number: u64,
    pub display_name: String,
    pub created_at: i64,
    pub changed_at: i64,
}

/// Mathematical image of a [`RosterEvent`]: the name as a sequence of chars.
pub struct RosterEventView {
    pub event_type: EventType,
    pub sequence_number: u64,
    pub display_name: Seq<char>,
    pub created_at: i64,
    pub changed_at: i64,
}

impl View for RosterEvent {
    type V = RosterEventView;

    open spec fn view(&self) -> RosterEventView {
        RosterEventView {
            event_type: self.event_type,
            sequence_number: self.sequence_number,
            display_name: self.display_name@,
            created_at: self.created_at,
            changed_at: self.changed_at,
        }
    }
}

} // verus!
