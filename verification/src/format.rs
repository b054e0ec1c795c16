//! Pure formatting of a change event into the outbound chat text.

use vstd::prelude::*;
use crate::event::{EventType, RosterEvent, RosterEventView};

verus! {

/// A message ready to hand to the chat collaborator: the destination
/// channel and the finished text. Consumed immediately after posting.
#[derive(PartialEq, Eq, Debug)]
pub struct OutboundMessage {
    pub target_channel: u64,
    pub text: String,
}

/// Mathematical image of an [`OutboundMessage`].
pub struct OutboundMessageView {
    pub target_channel: u64,
    pub text: Seq<char>,
}

impl View for OutboundMessage {
    type V = OutboundMessageView;

    open spec fn view(&self) -> OutboundMessageView {
        OutboundMessageView { target_channel: self.target_channel, text: self.text@ }
    }
}

/// The decimal digit character for `d` (meaningful for `d < 10`).
pub open spec fn spec_digit_char(d: nat) -> char {
    if d == 0 {
        '0'
    } else if d == 1 {
        '1'
    } else if d == 2 {
        '2'
    } else if d == 3 {
        '3'
    } else if d == 4 {
        '4'
    } else if d == 5 {
        '5'
    } else if d == 6 {
        '6'
    } else if d == 7 {
        '7'
    } else if d == 8 {
        '8'
    } else {
        '9'
    }
}

/// The usual decimal rendering of `n`, most significant digit first,
/// with no leading zeros (and `"0"` for zero).
pub open spec fn spec_decimal(n: nat) -> Seq<char>
    decreases n,
{
    if n < 10 {
        seq![spec_digit_char(n)]
    } else {
        spec_decimal(n / 10).push(spec_digit_char(n % 10))
    }
}

/// The status glyph attached to each kind of event.
pub open spec fn spec_glyph(t: EventType) -> Seq<char> {
    match t {
        EventType::Added => "\u{2705}"@,
        EventType::Removed => "\u{274c}"@,
        EventType::Other => "\u{2139}\u{fe0f}"@,
    }
}

/// The headline printed between the glyphs.
pub open spec fn spec_headline(t: EventType) -> Seq<char> {
    match t {
        EventType::Added => "ADDED TO ROSTER"@,
        EventType::Removed => "REMOVED FROM ROSTER"@,
        EventType::Other => "ROSTER CHANGE"@,
    }
}

/// The full outbound text for an event:
/// `"{glyph} **{headline}** {glyph}\n**#{sequenceNumber}** - {displayName}"`.
pub open spec fn spec_format(e: RosterEventView) -> Seq<char> {
    spec_glyph(e.event_type) + " **"@ + spec_headline(e.event_type) + "** "@ + spec_glyph(
        e.event_type,
    ) + "\n**#"@ + spec_decimal(e.sequence_number as nat) + "** - "@ + e.display_name
}

fn digit_str(d: u64) -> (r: &'static str)
    requires
        d < 10,
    ensures
        r@ == seq![spec_digit_char(d as nat)],
{
    proof {
        reveal_strlit("0");
        reveal_strlit("1");
        reveal_strlit("2");
        reveal_strlit("3");
        reveal_strlit("4");
        reveal_strlit("5");
        reveal_strlit("6");
        reveal_strlit("7");
        reveal_strlit("8");
        reveal_strlit("9");
        assert("0"@ =~= seq!['0']);
        assert("1"@ =~= seq!['1']);
        assert("2"@ =~= seq!['2']);
        assert("3"@ =~= seq!['3']);
        assert("4"@ =~= seq!['4']);
        assert("5"@ =~= seq!['5']);
        assert("6"@ =~= seq!['6']);
        assert("7"@ =~= seq!['7']);
        assert("8"@ =~= seq!['8']);
        assert("9"@ =~= seq!['9']);
    }
    if d == 0 {
        "0"
    } else if d == 1 {
        "1"
    } else if d == 2 {
        "2"
    } else if d == 3 {
        "3"
    } else if d == 4 {
        "4"
    } else if d == 5 {
        "5"
    } else if d == 6 {
        "6"
    } else if d == 7 {
        "7"
    } else if d == 8 {
        "8"
    } else {
        "9"
    }
}

/// Renders `n` in decimal, exactly as `spec_decimal` describes.
pub fn u64_to_decimal(n: u64) -> (r: String)
    ensures
        r@ == spec_decimal(n as nat),
    decreases n,
{
    if n < 10 {
        String::from_str(digit_str(n))
    } else {
        let mut s = u64_to_decimal(n / 10);
        let d = digit_str(n % 10);
        s.append(d);
        proof {
            assert(s@ =~= spec_decimal(n as nat));
        }
        s
    }
}

fn glyph_str(t: EventType) -> (r: &'static str)
    ensures
        r@ == spec_glyph(t),
{
    match t {
        EventType::Added => "\u{2705}",
        EventType::Removed => "\u{274c}",
        EventType::Other => "\u{2139}\u{fe0f}",
    }
}

fn headline_str(t: EventType) -> (r: &'static str)
    ensures
        r@ == spec_headline(t),
{
    match t {
        EventType::Added => "ADDED TO ROSTER",
        EventType::Removed => "REMOVED FROM ROSTER",
        EventType::Other => "ROSTER CHANGE",
    }
}

/// Pure, total formatter: the outbound text for any event, exactly the
/// template `spec_format` states. It cannot fail.
pub fn format_message(e: &RosterEvent) -> (r: String)
    ensures
        r@ == spec_format(e@),
{
    let glyph = glyph_str(e.event_type);
    let mut s = String::from_str(glyph);
    s.append(" **");
    s.append(headline_str(e.event_type));
    s.append("** ");
    s.append(glyph);
    s.append("\n**#");
    let num = u64_to_decimal(e.sequence_number);
    s.append(num.as_str());
    s.append("** - ");
    s.append(e.display_name.as_str());
    proof {
        assert(s@ =~= spec_format(e@));
    }
    s
}

/// Builds the outbound message for `e`, addressed to `channel`.
pub fn build_outbound(channel: u64, e: &RosterEvent) -> (m: OutboundMessage)
    ensures
        m@.target_channel == channel,
        m@.text == spec_format(e@),
{
    OutboundMessage { target_channel: channel, text: format_message(e) }
}

} // verus!
