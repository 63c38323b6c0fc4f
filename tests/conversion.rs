use calcard::icalendar::ICalendarComponentType;
use jmap_convert::codec::LegacyEntry;
use jmap_convert::convert::{convert, from_legacy, ConversionError, ConversionResult, MAX_OCCURRENCES};
use jmap_convert::detect::{detect, Detected};
use jmap_convert::source::SourceType;

const MINIMAL_EVENT: &str = "BEGIN:VCALENDAR\r\nVERSION:2.0\r\nPRODID:-//Example//EN\r\nBEGIN:VEVENT\r\nUID:minimal-1\r\nDTSTAMP:20250101T000000Z\r\nDTSTART:20250105T090500\r\nDTEND:20250105T100000\r\nSUMMARY:Team meeting\r\nEND:VEVENT\r\nEND:VCALENDAR\r\n";

const DAILY_EVENT: &str = "BEGIN:VCALENDAR\r\nVERSION:2.0\r\nPRODID:-//Example//EN\r\nBEGIN:VEVENT\r\nUID:daily-1\r\nDTSTAMP:20250101T000000Z\r\nDTSTART:20250105T090000\r\nDTEND:20250105T093000\r\nRRULE:FREQ=DAILY\r\nSUMMARY:Stand-up\r\nEND:VEVENT\r\nEND:VCALENDAR\r\n";

const ZONED_EVENT: &str = "BEGIN:VCALENDAR\r\nVERSION:2.0\r\nPRODID:-//Example//EN\r\nBEGIN:VEVENT\r\nUID:zoned-1\r\nDTSTAMP:20250101T000000Z\r\nDTSTART;TZID=Europe/Paris:20250105T140000\r\nDTEND;TZID=Europe/Paris:20250105T150000\r\nSUMMARY:Lunch\r\nEND:VEVENT\r\nEND:VCALENDAR\r\n";

const MINIMAL_CARD: &str = "BEGIN:VCARD\r\nVERSION:4.0\r\nFN:Jane Doe\r\nEND:VCARD\r\n";

fn ok(text: &str) -> ConversionResult {
    match convert(text) {
        Some(Ok(r)) => r,
        Some(Err(e)) => panic!("conversion failed: {}", e.message()),
        None => panic!("no outcome"),
    }
}

fn err(text: &str) -> ConversionError {
    match convert(text) {
        Some(Err(e)) => e,
        Some(Ok(_)) => panic!("conversion succeeded"),
        None => panic!("no outcome"),
    }
}

#[test]
fn minimal_event_converts_with_one_occurrence() {
    let r = ok(MINIMAL_EVENT);
    assert_eq!(r.source, SourceType::ICalendar);
    assert!(r.conversion.trim_start().starts_with('{'));
    assert!(r.conversion.contains("Team meeting"));
    assert!(r.round_trip.starts_with("BEGIN:VCALENDAR"));
    assert!(r.round_trip.contains("SUMMARY:Team meeting"));
    assert_eq!(r.occurrences.len(), 1);
    assert_eq!(r.occurrences[0].from, "Sun Jan 5, 2025 9:05am (Floating)");
    assert_eq!(r.occurrences[0].to, "Sun Jan 5, 2025 10:00am (Floating)");
}

#[test]
fn leading_white_space_is_ignored() {
    let text = format!("  \r\n\t{}", MINIMAL_EVENT);
    let r = ok(&text);
    assert_eq!(r.source, SourceType::ICalendar);
    assert_eq!(r.occurrences.len(), 1);
}

#[test]
fn group_key_routes_to_calendar_json_parse() {
    let e = err("{\"@type\": \"Group\", \"entries\": [ oops");
    match e {
        ConversionError::InvalidSyntax { parsed_as, ref detail } => {
            assert_eq!(parsed_as, Some(SourceType::JSCalendar));
            assert!(!detail.is_empty());
            assert!(e.message().starts_with("Failed to parse JSCalendar: "));
        }
        other => panic!("unexpected error {:?}", other),
    }
}

#[test]
fn card_key_routes_to_contact_json_parse() {
    let e = err("{\"@type\": \"Card\", oops");
    match e {
        ConversionError::InvalidSyntax { parsed_as, .. } => {
            assert_eq!(parsed_as, Some(SourceType::JSContact));
            assert!(e.message().starts_with("Failed to parse JSContact: "));
        }
        other => panic!("unexpected error {:?}", other),
    }
}

#[test]
fn json_without_domain_key_is_unrecognized() {
    let e = err("{}");
    assert!(matches!(e, ConversionError::UnrecognizedFormat { json: true }));
    assert_eq!(e.message(), "This does not look like a valid JSCalendar or JSContact.");
}

#[test]
fn daily_rule_without_end_fills_the_cap() {
    let r = ok(DAILY_EVENT);
    assert_eq!(r.source, SourceType::ICalendar);
    assert_eq!(r.occurrences.len(), MAX_OCCURRENCES);
    for w in r.occurrences.windows(2) {
        assert_eq!(w[1].start.seconds - w[0].start.seconds, 86_400);
        assert_eq!(w[1].end.seconds - w[0].end.seconds, 86_400);
    }
    assert_eq!(r.occurrences[0].from, "Sun Jan 5, 2025 9:00am (Floating)");
    assert_eq!(r.occurrences[0].to, "Sun Jan 5, 2025 9:30am (Floating)");
    assert_eq!(r.occurrences[1].from, "Mon Jan 6, 2025 9:00am (Floating)");
    assert_eq!(r.occurrences[24].from, "Wed Jan 29, 2025 9:00am (Floating)");
}

#[test]
fn event_without_zone_is_floating() {
    let r = ok(DAILY_EVENT);
    for o in &r.occurrences {
        assert!(o.from.ends_with("(Floating)"));
        assert!(o.to.ends_with("(Floating)"));
        assert!(o.start.zone.is_none());
    }
}

#[test]
fn event_with_zone_shows_its_name() {
    let r = ok(ZONED_EVENT);
    assert_eq!(r.occurrences.len(), 1);
    assert_eq!(r.occurrences[0].from, "Sun Jan 5, 2025 2:00pm (Europe/Paris)");
    assert_eq!(r.occurrences[0].to, "Sun Jan 5, 2025 3:00pm (Europe/Paris)");
}

#[test]
fn plain_text_is_unrecognized() {
    let e = err("hello world");
    assert!(matches!(e, ConversionError::UnrecognizedFormat { json: false }));
    assert_eq!(
        e.message(),
        "Unrecognized format. Please provide a valid iCalendar, JSCalendar, vCard or JSContact file."
    );
}

#[test]
fn empty_and_blank_input_give_nothing() {
    assert!(convert("").is_none());
    assert!(convert("   \r\n\t ").is_none());
    assert!(convert("\u{3000}\u{a0}").is_none());
    assert_eq!(detect(" \n "), Detected::Empty);
}

#[test]
fn vcard_converts_without_occurrences() {
    let r = ok(MINIMAL_CARD);
    assert_eq!(r.source, SourceType::VCard);
    assert!(r.conversion.contains("Jane Doe"));
    assert!(r.conversion.contains("Card"));
    assert!(r.round_trip.starts_with("BEGIN:VCARD"));
    assert!(r.round_trip.contains("Jane Doe"));
    assert!(r.occurrences.is_empty());
}

#[test]
fn jscontact_converts_to_vcard() {
    let r = ok("{\"@type\":\"Card\",\"version\":\"1.0\",\"name\":{\"full\":\"Jane Doe\"}}");
    assert_eq!(r.source, SourceType::JSContact);
    assert!(r.conversion.starts_with("BEGIN:VCARD"));
    assert!(r.conversion.contains("Jane Doe"));
    assert!(r.round_trip.contains("\"Card\""));
    assert!(r.occurrences.is_empty());
}

#[test]
fn jscalendar_converts_to_icalendar() {
    let r = ok("{\"@type\":\"Group\",\"entries\":[{\"@type\":\"Event\",\"uid\":\"g-1\",\"title\":\"Lunch\",\"start\":\"2025-01-05T12:00:00\",\"duration\":\"PT1H\"}]}\n\n");
    assert_eq!(r.source, SourceType::JSCalendar);
    assert!(r.conversion.starts_with("BEGIN:VCALENDAR"));
    assert!(r.conversion.contains("Lunch"));
    assert!(r.round_trip.contains("\"Group\""));
    assert_eq!(r.occurrences.len(), 1);
    assert_eq!(r.occurrences[0].from, "Sun Jan 5, 2025 12:00pm (Floating)");
    assert_eq!(r.occurrences[0].to, "Sun Jan 5, 2025 1:00pm (Floating)");
}

#[test]
fn detection_classifies_by_signature() {
    assert_eq!(detect("BEGIN:VCARD"), Detected::Legacy);
    assert_eq!(detect("\n {\"Group\" \"Card\"}"), Detected::CalendarJson);
    assert_eq!(detect("{\"Card\"}"), Detected::ContactJson);
    assert_eq!(detect("{\"Cards\"}"), Detected::UnknownJson);
    assert_eq!(detect("[\"Group\"]"), Detected::Unknown);
    assert_eq!(detect("begin:vcard"), Detected::Unknown);
}

#[test]
fn detection_is_stable() {
    for text in ["  {\"Group\"}", "hello", "", "\tBEGIN:X", "{}"] {
        assert_eq!(detect(text), detect(text));
        assert_eq!(detect(text.trim_start()), detect(text));
    }
}

#[test]
fn parser_failures_map_to_errors() {
    let e = from_legacy(LegacyEntry::InvalidLine("FOO BAR".to_string())).err().unwrap();
    assert_eq!(e.message(), "Invalid line found: FOO BAR");
    let e = from_legacy(LegacyEntry::UnterminatedComponent("VEVENT".to_string())).err().unwrap();
    assert_eq!(e.message(), "Unterminated component: VEVENT");
    let e = from_legacy(LegacyEntry::TooManyComponents).err().unwrap();
    assert!(matches!(e, ConversionError::OversizedInput));
    assert_eq!(e.message(), "Too many components");
    let e = from_legacy(LegacyEntry::Eof).err().unwrap();
    assert!(matches!(e, ConversionError::UnexpectedEnd));
    assert_eq!(e.message(), "Unexpected end of file");
    let e = from_legacy(LegacyEntry::Other).err().unwrap();
    assert!(matches!(e, ConversionError::UnrecognizedFormat { json: false }));
}

#[test]
fn wrong_component_end_names_both_components() {
    let e = from_legacy(LegacyEntry::UnexpectedComponentEnd {
        expected: ICalendarComponentType::VEvent,
        found: ICalendarComponentType::VCalendar,
    })
    .err()
    .unwrap();
    assert_eq!(e.message(), "Unexpected component end: expected VEVENT, found VCALENDAR");
}

#[test]
fn round_trip_failure_message() {
    assert_eq!(
        ConversionError::RoundTripFailure.message(),
        "Looks like you've found a bug in the conversion. Please report it."
    );
}

#[test]
fn bare_block_marker_is_an_unexpected_end() {
    let e = err("BEGIN:");
    assert!(matches!(e, ConversionError::UnexpectedEnd));
    assert_eq!(e.message(), "Unexpected end of file");
}

#[test]
fn converted_calendar_expands_to_the_same_occurrences() {
    let first = ok(DAILY_EVENT);
    let second = ok(&first.conversion);
    assert_eq!(second.source, SourceType::JSCalendar);
    let labels = |r: &ConversionResult| -> Vec<(String, String)> {
        r.occurrences.iter().map(|o| (o.from.clone(), o.to.clone())).collect()
    };
    assert_eq!(labels(&first), labels(&second));
}
