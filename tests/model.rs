use jmap_convert::occurrence::{format_instant, occurrences_of, Civil, Instant, Span};
use jmap_convert::source::SourceType;

fn instant(seconds: i64, year: i32, month: u32, day: u32, weekday: u32, hour: u32, minute: u32, zone: Option<&str>) -> Instant {
    Instant {
        seconds,
        nanos: 0,
        civil: Civil { year, month, day, weekday, hour, minute },
        zone: zone.map(|z| z.to_string()),
    }
}

fn span(seconds: i64, minute: u32) -> Option<Span> {
    Some(Span {
        start: instant(seconds, 2026, 1, 5, 0, 9, minute, None),
        end: instant(seconds + 60, 2026, 1, 5, 0, 9, minute + 1, None),
    })
}

#[test]
fn counterpart_is_an_involution() {
    for t in [SourceType::ICalendar, SourceType::JSCalendar, SourceType::VCard, SourceType::JSContact] {
        assert_eq!(t.counterpart().counterpart(), t);
        assert_ne!(t.counterpart(), t);
    }
    assert_eq!(SourceType::ICalendar.counterpart(), SourceType::JSCalendar);
    assert_eq!(SourceType::VCard.counterpart(), SourceType::JSContact);
}

#[test]
fn format_names() {
    assert_eq!(SourceType::ICalendar.as_str(), "iCalendar");
    assert_eq!(SourceType::JSCalendar.as_str(), "JSCalendar");
    assert_eq!(SourceType::VCard.as_str(), "vCard");
    assert_eq!(SourceType::JSContact.as_str(), "JSContact");
}

#[test]
fn labels_follow_the_display_layout() {
    assert_eq!(format_instant(&instant(0, 2026, 1, 5, 0, 0, 7, None)), "Mon Jan 5, 2026 12:07am (Floating)");
    assert_eq!(format_instant(&instant(0, 2026, 12, 31, 3, 12, 0, Some("Etc/UTC"))), "Thu Dec 31, 2026 12:00pm (Etc/UTC)");
    assert_eq!(format_instant(&instant(0, 7, 6, 10, 6, 23, 59, None)), "Sun Jun 10, 0007 11:59pm (Floating)");
    assert_eq!(format_instant(&instant(0, 12345, 2, 1, 4, 13, 5, None)), "Fri Feb 1, +12345 1:05pm (Floating)");
    assert_eq!(format_instant(&instant(0, -5, 3, 2, 1, 1, 30, None)), "Tue Mar 2, -0005 1:30am (Floating)");
}

#[test]
fn occurrences_are_ordered_capped_and_unresolved_dropped() {
    let v = vec![span(300, 5), None, span(100, 1), span(200, 3), None, span(100, 2)];
    let r = occurrences_of(v, 10);
    assert_eq!(r.len(), 4);
    let starts: Vec<i64> = r.iter().map(|o| o.start.seconds).collect();
    assert_eq!(starts, vec![100, 100, 200, 300]);
    assert_eq!(r[0].from, "Mon Jan 5, 2026 9:01am (Floating)");
    assert_eq!(r[1].from, "Mon Jan 5, 2026 9:02am (Floating)");
    assert_eq!(r[1].to, "Mon Jan 5, 2026 9:03am (Floating)");

    let v = vec![span(300, 5), span(100, 1), span(200, 3)];
    let r = occurrences_of(v, 2);
    assert_eq!(r.len(), 2);
    assert_eq!(r[0].start.seconds, 100);
    assert_eq!(r[1].start.seconds, 200);

    assert!(occurrences_of(vec![None, None], 25).is_empty());
    assert!(occurrences_of(vec![span(1, 1)], 0).is_empty());
}
