use roster_relay::event::{EventType, RosterEvent};
use roster_relay::format::{build_outbound, format_message, u64_to_decimal};

fn event(t: EventType, number: u64, name: &str) -> RosterEvent {
    RosterEvent {
        event_type: t,
        sequence_number: number,
        display_name: name.to_string(),
        created_at: 0,
        changed_at: 0,
    }
}

#[test]
fn format_added_is_exact() {
    let e = event(EventType::Added, 42, "Jane");
    assert_eq!(
        format_message(&e),
        "\u{2705} **ADDED TO ROSTER** \u{2705}\n**#42** - Jane"
    );
}

#[test]
fn format_removed_is_exact() {
    let e = event(EventType::Removed, 7, "Sam");
    assert_eq!(
        format_message(&e),
        "\u{274c} **REMOVED FROM ROSTER** \u{274c}\n**#7** - Sam"
    );
}

#[test]
fn format_other_uses_change_headline() {
    let e = event(EventType::Other, 3, "Ann");
    assert_eq!(
        format_message(&e),
        "\u{2139}\u{fe0f} **ROSTER CHANGE** \u{2139}\u{fe0f}\n**#3** - Ann"
    );
}

#[test]
fn format_is_a_pure_function_of_the_event() {
    let a = event(EventType::Added, 42, "Jane");
    let b = event(EventType::Added, 42, "Jane");
    assert_eq!(format_message(&a), format_message(&b));
    assert_eq!(format_message(&a), format_message(&a));
}

#[test]
fn decimal_rendering_is_exact() {
    assert_eq!(u64_to_decimal(0), "0");
    assert_eq!(u64_to_decimal(7), "7");
    assert_eq!(u64_to_decimal(10), "10");
    assert_eq!(u64_to_decimal(42), "42");
    assert_eq!(u64_to_decimal(90210), "90210");
    assert_eq!(u64_to_decimal(u64::MAX), "18446744073709551615");
}

#[test]
fn outbound_message_carries_channel_and_text() {
    let e = event(EventType::Added, 42, "Jane");
    let m = build_outbound(1234567890, &e);
    assert_eq!(m.target_channel, 1234567890);
    assert_eq!(m.text, "\u{2705} **ADDED TO ROSTER** \u{2705}\n**#42** - Jane");
}

#[test]
fn format_keeps_the_name_verbatim() {
    let e = event(EventType::Added, 1, "Jane **x** \u{2705}");
    assert_eq!(
        format_message(&e),
        "\u{2705} **ADDED TO ROSTER** \u{2705}\n**#1** - Jane **x** \u{2705}"
    );
}

#[test]
fn format_empty_name() {
    let e = event(EventType::Other, 0, "");
    assert_eq!(
        format_message(&e),
        "\u{2139}\u{fe0f} **ROSTER CHANGE** \u{2139}\u{fe0f}\n**#0** - "
    );
}
