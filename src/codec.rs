//! The calendar and contact codec that the conversions rest on: its types,
//! and one trusted wrapper for each of its functions that is used.
use vstd::prelude::*;
use calcard::common::timezone::Tz;
use calcard::icalendar::dates::{CalendarEvent, TimeOrDelta};
use calcard::icalendar::{ICalendar, ICalendarComponentType};
use calcard::jscalendar::JSCalendar;
use calcard::jscontact::JSContact;
use calcard::vcard::VCard;
use calcard::{Entry, Parser};
use chrono::{DateTime, Datelike, TimeDelta, Timelike};

verus! {

/// calcard's parsed iCalendar object.
#[verifier::external_type_specification]
#[verifier::external_body]
pub struct ExICalendar(ICalendar);

/// calcard's parsed vCard.
#[verifier::external_type_specification]
#[verifier::external_body]
pub struct ExVCard(VCard);

/// calcard's kind of iCalendar component (`VEVENT`, `VCALENDAR`, ...).
#[verifier::external_type_specification]
#[verifier::external_body]
pub struct ExICalendarComponentType(ICalendarComponentType);

/// calcard's JSCalendar value. Verus refuses to declare calcard's type,
/// whose parameters are bound by a trait of calcard, so it is held here.
#[verifier::external_body]
pub struct JsCalendarValue<'x> {
    doc: JSCalendar<'x, String, String>,
}

/// calcard's JSContact value, held for the same reason.
#[verifier::external_body]
pub struct JsContactValue<'x> {
    doc: JSContact<'x, String, String>,
}

/// A JSCalendar document, and whether its JSON value is an object.
pub struct JsCalendarDoc<'x> {
    pub value: JsCalendarValue<'x>,
    pub is_object: Ghost<bool>,
}

/// A JSContact document, and whether its JSON value is an object.
pub struct JsContactDoc<'x> {
    pub value: JsContactValue<'x>,
    pub is_object: Ghost<bool>,
}

/// A date-time together with the zone it was given in. Verus refuses to
/// declare chrono's type, whose parameter is bound by a trait of chrono.
#[verifier::external_body]
pub struct Moment {
    at: DateTime<Tz>,
}

/// One expanded instance as the expansion hands it out; its end may still be
/// a duration. Held for the same reason as `Moment`.
#[verifier::external_body]
pub struct RawEvent {
    ev: CalendarEvent<DateTime<Tz>, TimeOrDelta<DateTime<Tz>, TimeDelta>>,
}

/// What the shared iCalendar / vCard parser found.
pub enum LegacyEntry {
    Calendar(ICalendar),
    Contact(VCard),
    InvalidLine(String),
    UnexpectedComponentEnd { expected: ICalendarComponentType, found: ICalendarComponentType },
    UnterminatedComponent(String),
    TooManyComponents,
    Eof,
    /// A kind of entry that this library does not know.
    Other,
}

/// The kinds of entry that the iCalendar / vCard parser hands out.
#[derive(Clone, Copy, Debug, PartialEq, Eq, Structural)]
pub enum EntryKind {
    Calendar,
    Contact,
    InvalidLine,
    UnexpectedComponentEnd,
    UnterminatedComponent,
    TooManyComponents,
    Eof,
    Other,
}

/// The kind of an entry, and the text that an invalid-line or
/// unterminated-component entry carries (empty for the other kinds).
pub open spec fn entry_shape(e: LegacyEntry) -> (EntryKind, Seq<char>) {
    match e {
        LegacyEntry::Calendar(_) => (EntryKind::Calendar, Seq::empty()),
        LegacyEntry::Contact(_) => (EntryKind::Contact, Seq::empty()),
        LegacyEntry::InvalidLine(t) => (EntryKind::InvalidLine, t@),
        LegacyEntry::UnexpectedComponentEnd { .. } => (
            EntryKind::UnexpectedComponentEnd,
            Seq::empty(),
        ),
        LegacyEntry::UnterminatedComponent(t) => (EntryKind::UnterminatedComponent, t@),
        LegacyEntry::TooManyComponents => (EntryKind::TooManyComponents, Seq::empty()),
        LegacyEntry::Eof => (EntryKind::Eof, Seq::empty()),
        LegacyEntry::Other => (EntryKind::Other, Seq::empty()),
    }
}

/// What `Parser::entry` finds in a text: the kind of entry and its text, as
/// `entry_shape` gives them. It depends on the text alone.
pub uninterp spec fn legacy_entry_of(s: Seq<char>) -> (EntryKind, Seq<char>);

/// Relies on calcard's `Parser::entry`: reads the first iCalendar or vCard
/// entry of the text, or says what kept it from doing so. calcard's `Entry`
/// has exactly the seven kinds mapped here; `Other` is never produced.
#[verifier::external_body]
pub(crate) fn parse_legacy(s: &str) -> (r: LegacyEntry)
    ensures
        entry_shape(r) == legacy_entry_of(s@),
        !(r is Other),
{
    match Parser::new(s).entry() {
        Entry::VCard(v) => LegacyEntry::Contact(v),
        Entry::ICalendar(i) => LegacyEntry::Calendar(i),
        Entry::InvalidLine(t) => LegacyEntry::InvalidLine(t),
        Entry::UnexpectedComponentEnd { expected, found } => {
            LegacyEntry::UnexpectedComponentEnd { expected, found }
        },
        Entry::UnterminatedComponent(c) => LegacyEntry::UnterminatedComponent(c.into_owned()),
        Entry::TooManyComponents => LegacyEntry::TooManyComponents,
        Entry::Eof => LegacyEntry::Eof,
        _ => LegacyEntry::Other,
    }
}

/// Relies on `ICalendarComponentType::as_str` of calcard: the component's
/// name as it stands after `BEGIN:` / `END:`.
#[verifier::external_body]
pub(crate) fn component_name(c: &ICalendarComponentType) -> (r: String) {
    c.as_str().to_string()
}

/// What `JSCalendar::parse` reports for a text: nothing when it parses, else
/// its message. It depends on the text alone.
pub uninterp spec fn jscalendar_parse_error(s: Seq<char>) -> Option<Seq<char>>;

/// What `JSContact::parse` reports for a text, as above.
pub uninterp spec fn jscontact_parse_error(s: Seq<char>) -> Option<Seq<char>>;

/// Relies on calcard's `JSCalendar::parse`: reads a JSCalendar JSON document.
#[verifier::external_body]
/// A text that opens with `{` and parses holds a JSON object.
pub(crate) fn parse_jscalendar<'x>(s: &'x str) -> (r: Result<JsCalendarDoc<'x>, String>)
    ensures
        r is Ok <==> jscalendar_parse_error(s@) is None,
        r is Err ==> jscalendar_parse_error(s@) == Some(r->Err_0@),
        r is Ok && s@.len() > 0 && s@[0] == '{' ==> r->Ok_0.is_object@,
{
    JSCalendar::parse(s).map(
        |doc| JsCalendarDoc { value: JsCalendarValue { doc }, is_object: Ghost(true) },
    )
}

/// Relies on calcard's `JSContact::parse`: reads a JSContact JSON document.
#[verifier::external_body]
/// A text that opens with `{` and parses holds a JSON object.
pub(crate) fn parse_jscontact<'x>(s: &'x str) -> (r: Result<JsContactDoc<'x>, String>)
    ensures
        r is Ok <==> jscontact_parse_error(s@) is None,
        r is Err ==> jscontact_parse_error(s@) == Some(r->Err_0@),
        r is Ok && s@.len() > 0 && s@[0] == '{' ==> r->Ok_0.is_object@,
{
    JSContact::parse(s).map(
        |doc| JsContactDoc { value: JsContactValue { doc }, is_object: Ghost(true) },
    )
}

/// Relies on calcard's `ICalendar::into_jscalendar`, which always builds a
/// JSON object.
#[verifier::external_body]
pub(crate) fn ical_into_jscalendar(i: ICalendar) -> (r: JsCalendarDoc<'static>)
    ensures
        r.is_object@,
{
    JsCalendarDoc { value: JsCalendarValue { doc: i.into_jscalendar() }, is_object: Ghost(true) }
}

/// Relies on calcard's `JSCalendar::into_icalendar`, which gives nothing
/// exactly when the JSON value is not an object.
#[verifier::external_body]
pub(crate) fn jscalendar_into_ical(j: JsCalendarDoc<'_>) -> (r: Option<ICalendar>)
    ensures
        r is Some <==> j.is_object@,
{
    j.value.doc.into_icalendar()
}

/// Relies on calcard's `JSCalendar::to_string_pretty`: indented JSON.
#[verifier::external_body]
pub(crate) fn jscalendar_text(j: &JsCalendarDoc<'_>) -> (r: String) {
    j.value.doc.to_string_pretty()
}

/// Relies on calcard's `Display` of `ICalendar`: the iCalendar text.
#[verifier::external_body]
pub(crate) fn ical_text(i: &ICalendar) -> (r: String) {
    i.to_string()
}

/// Relies on calcard's `VCard::into_jscontact`, which always builds a JSON
/// object.
#[verifier::external_body]
pub(crate) fn vcard_into_jscontact(v: VCard) -> (r: JsContactDoc<'static>)
    ensures
        r.is_object@,
{
    JsContactDoc { value: JsContactValue { doc: v.into_jscontact() }, is_object: Ghost(true) }
}

/// Relies on calcard's `JSContact::into_vcard`, which gives nothing exactly
/// when the JSON value is not an object.
#[verifier::external_body]
pub(crate) fn jscontact_into_vcard(j: JsContactDoc<'_>) -> (r: Option<VCard>)
    ensures
        r is Some <==> j.is_object@,
{
    j.value.doc.into_vcard()
}

/// Relies on calcard's `JSContact::to_string_pretty`: indented JSON.
#[verifier::external_body]
pub(crate) fn jscontact_text(j: &JsContactDoc<'_>) -> (r: String) {
    j.value.doc.to_string_pretty()
}

/// Relies on calcard's `Display` of `VCard`: the vCard text.
#[verifier::external_body]
pub(crate) fn vcard_text(v: &VCard) -> (r: String) {
    v.to_string()
}

/// Relies on calcard's `ICalendar::expand_dates`, with floating times read
/// as floating: the instances of each component, recurrences cut after
/// `limit` instances.
#[verifier::external_body]
pub(crate) fn expand_dates(i: &ICalendar, limit: usize) -> (r: Vec<RawEvent>) {
    i.expand_dates(Tz::Floating, limit).events.into_iter().map(|ev| RawEvent { ev }).collect()
}

/// Relies on calcard's `CalendarEvent::try_into_date_time`: the start and the
/// end of an instance, nothing where its end cannot be resolved.
#[verifier::external_body]
pub(crate) fn resolve_event(e: RawEvent) -> (r: Option<(Moment, Moment)>) {
    e.ev.try_into_date_time().map(|ev| (Moment { at: ev.start }, Moment { at: ev.end }))
}

/// Relies on chrono's `DateTime::timestamp`: whole seconds since the epoch.
#[verifier::external_body]
pub(crate) fn moment_seconds(m: &Moment) -> (r: i64) {
    m.at.timestamp()
}

/// Relies on chrono's `DateTime::timestamp_subsec_nanos`: nanoseconds past
/// the second, above 999,999,999 only within a leap second.
#[verifier::external_body]
pub(crate) fn moment_nanos(m: &Moment) -> (r: u32)
    ensures
        r < 2_000_000_000,
{
    m.at.timestamp_subsec_nanos()
}

/// Relies on chrono's `Datelike::year`: the local year.
#[verifier::external_body]
pub(crate) fn moment_year(m: &Moment) -> (r: i32) {
    m.at.year()
}

/// Relies on chrono's `Datelike::month`: the local month, 1 to 12.
#[verifier::external_body]
pub(crate) fn moment_month(m: &Moment) -> (r: u32)
    ensures
        1 <= r <= 12,
{
    m.at.month()
}

/// Relies on chrono's `Datelike::day`: the local day of the month, 1 to 31.
#[verifier::external_body]
pub(crate) fn moment_day(m: &Moment) -> (r: u32)
    ensures
        1 <= r <= 31,
{
    m.at.day()
}

/// Relies on chrono's `Weekday::num_days_from_monday` of `Datelike::weekday`:
/// the local weekday, Monday 0 to Sunday 6.
#[verifier::external_body]
pub(crate) fn moment_weekday(m: &Moment) -> (r: u32)
    ensures
        r < 7,
{
    m.at.weekday().num_days_from_monday()
}

/// Relies on chrono's `Timelike::hour`: the local hour, 0 to 23.
#[verifier::external_body]
pub(crate) fn moment_hour(m: &Moment) -> (r: u32)
    ensures
        r < 24,
{
    m.at.hour()
}

/// Relies on chrono's `Timelike::minute`: the local minute, 0 to 59.
#[verifier::external_body]
pub(crate) fn moment_minute(m: &Moment) -> (r: u32)
    ensures
        r < 60,
{
    m.at.minute()
}

/// Relies on calcard's `Tz::name` of the moment's zone: its IANA name, or
/// nothing for a floating time.
#[verifier::external_body]
pub(crate) fn moment_zone(m: &Moment) -> (r: Option<String>) {
    m.at.timezone().name().map(|n| n.into_owned())
}

} // verus!
