//! The conversion of one input: detection, parsing, conversion to the
//! counterpart format and back, and occurrence expansion.
use vstd::prelude::*;
use vstd::string::{StrSliceExecFns, StringExecFns};
use calcard::icalendar::ICalendar;
use calcard::vcard::VCard;
use crate::codec::{
    component_name, expand_dates, ical_into_jscalendar, ical_text, jscalendar_into_ical,
    jscalendar_parse_error, jscalendar_text, jscontact_into_vcard, jscontact_parse_error,
    jscontact_text, moment_day, moment_hour, moment_minute, moment_month, moment_nanos,
    moment_seconds, moment_weekday, moment_year, moment_zone, parse_jscalendar, parse_jscontact,
    parse_legacy, resolve_event, vcard_into_jscontact, vcard_text, entry_shape, legacy_entry_of,
    EntryKind, LegacyEntry, Moment, RawEvent,
};
use crate::detect::{classify, detect_spec, trim_start, Detected};
use crate::occurrence::{
    all_resolved_wf, instant_wf, label_of, occurrence_of, occurrences_of, occurrences_sorted,
    resolved, span_wf, spans_sorted, Civil, Instant, Occurrence, Span,
};
use crate::source::{is_calendar, SourceType};
use crate::text::{
    chars_of, is_white, lemma_trail_white_bound, starts_with, trail_white_len, trim_end_of,
    trim_start_of,
};

verus! {

/// How many occurrences of a calendar entry are listed at most.
pub const MAX_OCCURRENCES: usize = 25;

/// Why a conversion failed.
#[derive(Debug)]
pub enum ConversionError {
    /// The input is in none of the four formats; `json` tells whether it
    /// was a JSON object that names no domain.
    UnrecognizedFormat { json: bool },
    /// A line that the iCalendar / vCard parser could not read
    /// (`parsed_as` is `None`), or a JSON document that failed to parse as
    /// the format in `parsed_as`.
    InvalidSyntax { parsed_as: Option<SourceType>, detail: String },
    /// A component closed with the wrong `END:`.
    StructuralError { expected: String, found: String },
    /// A component that was never closed.
    UnterminatedInput { component: String },
    /// Components nested too deeply.
    OversizedInput,
    /// The text ended inside an entry.
    UnexpectedEnd,
    /// The converted value could not be converted back: a defect of the
    /// converter rather than of the input.
    RoundTripFailure,
}

/// The outcome of a successful conversion.
#[derive(Debug)]
pub struct ConversionResult {
    /// The format that the input was in.
    pub source: SourceType,
    /// The input in the counterpart format.
    pub conversion: String,
    /// The converted value, converted back to the input's format.
    pub round_trip: String,
    /// For calendar input, its first occurrences in time order.
    pub occurrences: Vec<Occurrence>,
}

pub open spec fn bug_message() -> Seq<char> {
    "Looks like you've found a bug in the conversion. Please report it."@
}

/// The text under which an error is shown.
pub open spec fn message_of(e: ConversionError) -> Seq<char> {
    match e {
        ConversionError::UnrecognizedFormat { json } => if json {
            "This does not look like a valid JSCalendar or JSContact."@
        } else {
            "Unrecognized format. Please provide a valid iCalendar, JSCalendar, vCard or JSContact file."@
        },
        ConversionError::InvalidSyntax { parsed_as, detail } => match parsed_as {
            Some(SourceType::JSCalendar) => "Failed to parse JSCalendar: "@ + detail@,
            Some(SourceType::JSContact) => "Failed to parse JSContact: "@ + detail@,
            _ => "Invalid line found: "@ + detail@,
        },
        ConversionError::StructuralError { expected, found } => "Unexpected component end: expected "@
            + expected@ + ", found "@ + found@,
        ConversionError::UnterminatedInput { component } => "Unterminated component: "@
            + component@,
        ConversionError::OversizedInput => "Too many components"@,
        ConversionError::UnexpectedEnd => "Unexpected end of file"@,
        ConversionError::RoundTripFailure => bug_message(),
    }
}

impl ConversionError {
    /// The text under which the error is shown.
    pub fn message(&self) -> (r: String)
        ensures
            r@ == message_of(*self),
    {
        match self {
            ConversionError::UnrecognizedFormat { json } => if *json {
                String::from_str("This does not look like a valid JSCalendar or JSContact.")
            } else {
                String::from_str(
                    "Unrecognized format. Please provide a valid iCalendar, JSCalendar, vCard or JSContact file.",
                )
            },
            ConversionError::InvalidSyntax { parsed_as, detail } => {
                let head = match parsed_as {
                    Some(SourceType::JSCalendar) => "Failed to parse JSCalendar: ",
                    Some(SourceType::JSContact) => "Failed to parse JSContact: ",
                    _ => "Invalid line found: ",
                };
                String::from_str(head).concat(detail.as_str())
            },
            ConversionError::StructuralError { expected, found } => {
                String::from_str("Unexpected component end: expected ").concat(
                    expected.as_str(),
                ).concat(", found ").concat(found.as_str())
            },
            ConversionError::UnterminatedInput { component } => {
                String::from_str("Unterminated component: ").concat(component.as_str())
            },
            ConversionError::OversizedInput => String::from_str("Too many components"),
            ConversionError::UnexpectedEnd => String::from_str("Unexpected end of file"),
            ConversionError::RoundTripFailure => String::from_str(
                "Looks like you've found a bug in the conversion. Please report it.",
            ),
        }
    }
}

/// What holds of the occurrences of every result: at most the cap, in time
/// order, each labelled after its own start and end.
pub open spec fn occurrences_ok(v: Seq<Occurrence>) -> bool {
    &&& v.len() <= MAX_OCCURRENCES
    &&& occurrences_sorted(v)
    &&& forall|i: int|
        0 <= i < v.len() ==> {
            &&& (#[trigger] v[i]).from@ == label_of(v[i].start)
            &&& v[i].to@ == label_of(v[i].end)
        }
}

/// What holds of every successful conversion from `source`.
pub open spec fn result_ok(r: ConversionResult, source: SourceType) -> bool {
    &&& r.source == source
    &&& occurrences_ok(r.occurrences@)
    &&& !is_calendar(source) ==> r.occurrences.len() == 0
}

fn instant_of(m: &Moment) -> (r: Instant)
    ensures
        instant_wf(r),
{
    Instant {
        seconds: moment_seconds(m),
        nanos: moment_nanos(m),
        civil: Civil {
            year: moment_year(m),
            month: moment_month(m),
            day: moment_day(m),
            weekday: moment_weekday(m),
            hour: moment_hour(m),
            minute: moment_minute(m),
        },
        zone: moment_zone(m),
    }
}

fn span_of(e: RawEvent) -> (r: Option<Span>)
    ensures
        r is Some ==> span_wf(r->Some_0),
{
    match resolve_event(e) {
        Some((start, end)) => Some(Span { start: instant_of(&start), end: instant_of(&end) }),
        None => None,
    }
}

/// The first occurrences of a calendar, ordered by start.
fn expand(ical: &ICalendar) -> (r: Vec<Occurrence>)
    ensures
        occurrences_ok(r@),
{
    let events = expand_dates(ical, MAX_OCCURRENCES);
    let mut spans: Vec<Option<Span>> = Vec::new();
    for e in events
        invariant
            all_resolved_wf(spans@),
    {
        spans.push(span_of(e));
    }
    let r = occurrences_of(spans, MAX_OCCURRENCES);
    proof {
        let s = choose|s: Seq<Span>| {
            &&& spans_sorted(s)
            &&& s.to_multiset() == resolved(spans@).to_multiset()
            &&& forall|i: int| 0 <= i < r.len() ==> occurrence_of(s[i], #[trigger] r[i])
        };
        assert forall|i: int| 0 <= i < r.len() implies {
            &&& (#[trigger] r@[i]).from@ == label_of(r@[i].start)
            &&& r@[i].to@ == label_of(r@[i].end)
        } by {
            assert(occurrence_of(s[i], r[i]));
        }
    }
    r
}

/// iCalendar to JSCalendar and back. Round-trip failure policy: a
/// conversion that cannot be reversed yields only the error; its partial
/// output and occurrences are dropped.
fn from_icalendar(ical: ICalendar) -> (r: Result<ConversionResult, ConversionError>)
    ensures
        r is Ok,
        result_ok(r->Ok_0, SourceType::ICalendar),
{
    let occurrences = expand(&ical);
    let js = ical_into_jscalendar(ical);
    let conversion = jscalendar_text(&js);
    match jscalendar_into_ical(js) {
        Some(back) => Ok(
            ConversionResult {
                source: SourceType::ICalendar,
                conversion,
                round_trip: ical_text(&back),
                occurrences,
            },
        ),
        None => Err(ConversionError::RoundTripFailure),
    }
}

/// vCard to JSContact and back.
fn from_vcard(vcard: VCard) -> (r: Result<ConversionResult, ConversionError>)
    ensures
        r is Ok,
        result_ok(r->Ok_0, SourceType::VCard),
{
    let js = vcard_into_jscontact(vcard);
    let conversion = jscontact_text(&js);
    match jscontact_into_vcard(js) {
        Some(back) => Ok(
            ConversionResult {
                source: SourceType::VCard,
                conversion,
                round_trip: vcard_text(&back),
                occurrences: Vec::new(),
            },
        ),
        None => Err(ConversionError::RoundTripFailure),
    }
}

/// The outcome that each kind of parser entry leads to: an entry is
/// converted, each parser failure maps to its own error, carrying the
/// parser's text where it gives one.
pub open spec fn legacy_outcome_ok(
    r: Result<ConversionResult, ConversionError>,
    shape: (EntryKind, Seq<char>),
) -> bool {
    let (kind, detail) = shape;
    match kind {
        EntryKind::Calendar => r is Ok && result_ok(r->Ok_0, SourceType::ICalendar),
        EntryKind::Contact => r is Ok && result_ok(r->Ok_0, SourceType::VCard),
        EntryKind::InvalidLine => r is Err && r->Err_0 is InvalidSyntax && r->Err_0->parsed_as is None
            && r->Err_0->detail@ == detail,
        EntryKind::UnexpectedComponentEnd => r is Err && r->Err_0 is StructuralError,
        EntryKind::UnterminatedComponent => r is Err && r->Err_0 is UnterminatedInput
            && r->Err_0->component@ == detail,
        EntryKind::TooManyComponents => r is Err && r->Err_0 is OversizedInput,
        EntryKind::Eof => r is Err && r->Err_0 is UnexpectedEnd,
        EntryKind::Other => r is Err && r->Err_0 == (ConversionError::UnrecognizedFormat {
            json: false,
        }),
    }
}

/// Converts what the iCalendar / vCard parser found: an entry is converted
/// to its counterpart, each parser failure maps to the matching error.
pub fn from_legacy(entry: LegacyEntry) -> (r: Result<ConversionResult, ConversionError>)
    ensures
        legacy_outcome_ok(r, entry_shape(entry)),
{
    match entry {
        LegacyEntry::Calendar(ical) => from_icalendar(ical),
        LegacyEntry::Contact(vcard) => from_vcard(vcard),
        LegacyEntry::InvalidLine(detail) => Err(
            ConversionError::InvalidSyntax { parsed_as: None, detail },
        ),
        LegacyEntry::UnexpectedComponentEnd { expected, found } => Err(
            ConversionError::StructuralError {
                expected: component_name(&expected),
                found: component_name(&found),
            },
        ),
        LegacyEntry::UnterminatedComponent(component) => Err(
            ConversionError::UnterminatedInput { component },
        ),
        LegacyEntry::TooManyComponents => Err(ConversionError::OversizedInput),
        LegacyEntry::Eof => Err(ConversionError::UnexpectedEnd),
        LegacyEntry::Other => Err(ConversionError::UnrecognizedFormat { json: false }),
    }
}

/// JSCalendar to iCalendar and back. The text is parsed without its
/// trailing white space.
fn from_jscalendar(text: &str) -> (r: Result<ConversionResult, ConversionError>)
    requires
        text@.len() > 0,
        text@[0] == '{',
    ensures
        jscalendar_parse_error(trim_end_of(text@)) is Some ==> r is Err && r->Err_0 is InvalidSyntax
            && r->Err_0->parsed_as == Some(SourceType::JSCalendar) && Some(r->Err_0->detail@)
            == jscalendar_parse_error(trim_end_of(text@)),
        jscalendar_parse_error(trim_end_of(text@)) is None ==> r is Ok && result_ok(
            r->Ok_0,
            SourceType::JSCalendar,
        ),
{
    let cs = chars_of(text);
    let k = trail_white_len(&cs);
    proof {
        lemma_trail_white_bound(text@);
        if k == cs.len() {
            assert(is_white(text@[0]));
        }
    }
    let body = text.substring_char(0, cs.len() - k);
    match parse_jscalendar(body) {
        Ok(js) => match jscalendar_into_ical(js) {
            Some(ical) => {
                let conversion = ical_text(&ical);
                let occurrences = expand(&ical);
                let back = ical_into_jscalendar(ical);
                Ok(
                    ConversionResult {
                        source: SourceType::JSCalendar,
                        conversion,
                        round_trip: jscalendar_text(&back),
                        occurrences,
                    },
                )
            },
            None => Err(ConversionError::RoundTripFailure),
        },
        Err(detail) => Err(
            ConversionError::InvalidSyntax { parsed_as: Some(SourceType::JSCalendar), detail },
        ),
    }
}

/// JSContact to vCard and back.
fn from_jscontact(text: &str) -> (r: Result<ConversionResult, ConversionError>)
    requires
        text@.len() > 0,
        text@[0] == '{',
    ensures
        jscontact_parse_error(text@) is Some ==> r is Err && r->Err_0 is InvalidSyntax
            && r->Err_0->parsed_as == Some(SourceType::JSContact) && Some(r->Err_0->detail@)
            == jscontact_parse_error(text@),
        jscontact_parse_error(text@) is None ==> r is Ok && result_ok(
            r->Ok_0,
            SourceType::JSContact,
        ),
{
    match parse_jscontact(text) {
        Ok(js) => match jscontact_into_vcard(js) {
            Some(vcard) => {
                let conversion = vcard_text(&vcard);
                let back = vcard_into_jscontact(vcard);
                Ok(
                    ConversionResult {
                        source: SourceType::JSContact,
                        conversion,
                        round_trip: jscontact_text(&back),
                        occurrences: Vec::new(),
                    },
                )
            },
            None => Err(ConversionError::RoundTripFailure),
        },
        Err(detail) => Err(
            ConversionError::InvalidSyntax { parsed_as: Some(SourceType::JSContact), detail },
        ),
    }
}

/// What every outcome of `convert` on the text `s` satisfies.
pub open spec fn convert_ok(s: Seq<char>, r: Option<Result<ConversionResult, ConversionError>>) -> bool {
    &&& (r is None <==> detect_spec(s) == Detected::Empty)
    &&& (detect_spec(s) == Detected::Unknown ==> r == Some(
            Err::<ConversionResult, ConversionError>(
                ConversionError::UnrecognizedFormat { json: false },
            ),
        ))
    &&& (detect_spec(s) == Detected::UnknownJson ==> r == Some(
            Err::<ConversionResult, ConversionError>(
                ConversionError::UnrecognizedFormat { json: true },
            ),
        ))
    &&& (detect_spec(s) == Detected::Legacy ==> r is Some && legacy_entry_of(
            trim_start_of(s),
        ).0 != EntryKind::Other && legacy_outcome_ok(r->Some_0, legacy_entry_of(trim_start_of(s))))
    &&& (detect_spec(s) == Detected::CalendarJson ==> r is Some && ({
            let e = jscalendar_parse_error(trim_end_of(trim_start_of(s)));
            &&& e is Some ==> r->Some_0 is Err && r->Some_0->Err_0 is InvalidSyntax
                && r->Some_0->Err_0->parsed_as == Some(SourceType::JSCalendar) && Some(
                r->Some_0->Err_0->detail@,
            ) == e
            &&& e is None ==> r->Some_0 is Ok && result_ok(r->Some_0->Ok_0, SourceType::JSCalendar)
        }))
    &&& (detect_spec(s) == Detected::ContactJson ==> r is Some && ({
            let e = jscontact_parse_error(trim_start_of(s));
            &&& e is Some ==> r->Some_0 is Err && r->Some_0->Err_0 is InvalidSyntax
                && r->Some_0->Err_0->parsed_as == Some(SourceType::JSContact) && Some(
                r->Some_0->Err_0->detail@,
            ) == e
            &&& e is None ==> r->Some_0 is Ok && result_ok(r->Some_0->Ok_0, SourceType::JSContact)
        }))
}

/// Detects the format of `text`, converts it to its counterpart and back,
/// and for calendar input lists its first occurrences. Input that is empty
/// or white space gives `None`: nothing to show and no error.
pub fn convert(text: &str) -> (r: Option<Result<ConversionResult, ConversionError>>)
    ensures
        convert_ok(text@, r),
{
    let t = trim_start(text);
    let cs = chars_of(t);
    proof {
        reveal_strlit("{");
        if starts_with(t@, "{"@) {
            assert(t@[0] == t@.subrange(0, 1)[0]);
        }
    }
    match classify(&cs) {
        Detected::Empty => None,
        Detected::Legacy => Some(from_legacy(parse_legacy(t))),
        Detected::CalendarJson => Some(from_jscalendar(t)),
        Detected::ContactJson => Some(from_jscontact(t)),
        Detected::UnknownJson => Some(Err(ConversionError::UnrecognizedFormat { json: true })),
        Detected::Unknown => Some(Err(ConversionError::UnrecognizedFormat { json: false })),
    }
}

/// The classification of an outcome: nothing, the source format of a
/// success, or the kind of error with the parser's or JSON reader's text.
pub open spec fn classification(r: Option<Result<ConversionResult, ConversionError>>) -> Option<
    Result<SourceType, (int, Option<SourceType>, Seq<char>)>,
> {
    match r {
        None => None,
        Some(Ok(res)) => Some(Ok(res.source)),
        Some(Err(e)) => Some(
            Err(
                match e {
                    ConversionError::UnrecognizedFormat { json } => (
                        if json { 1int } else { 0int },
                        None,
                        Seq::empty(),
                    ),
                    ConversionError::InvalidSyntax { parsed_as, detail } => (2, parsed_as, detail@),
                    ConversionError::StructuralError { .. } => (3, None, Seq::empty()),
                    ConversionError::UnterminatedInput { component } => (4, None, component@),
                    ConversionError::OversizedInput => (5, None, Seq::empty()),
                    ConversionError::UnexpectedEnd => (6, None, Seq::empty()),
                    ConversionError::RoundTripFailure => (7, None, Seq::empty()),
                },
            ),
        ),
    }
}

/// Converting the same text twice classifies it the same way both times:
/// the same source format, or the same error with the same text.
pub proof fn lemma_convert_classifies_alike(
    s: Seq<char>,
    a: Option<Result<ConversionResult, ConversionError>>,
    b: Option<Result<ConversionResult, ConversionError>>,
)
    requires
        convert_ok(s, a),
        convert_ok(s, b),
    ensures
        classification(a) == classification(b),
{
    let d = detect_spec(s);
    if d == Detected::CalendarJson {
        if jscalendar_parse_error(trim_end_of(trim_start_of(s))) is Some {
            assert(a->Some_0->Err_0->detail@ == b->Some_0->Err_0->detail@);
        }
    } else if d == Detected::ContactJson {
        if jscontact_parse_error(trim_start_of(s)) is Some {
            assert(a->Some_0->Err_0->detail@ == b->Some_0->Err_0->detail@);
        }
    }
}

/// The input is reported as being in no known format only when its trimmed
/// text neither opens a `BEGIN:` block nor is a JSON object naming
/// `"Group"` or `"Card"`.
pub proof fn lemma_unrecognized_only_without_signature(
    s: Seq<char>,
    r: Option<Result<ConversionResult, ConversionError>>,
)
    requires
        convert_ok(s, r),
        r is Some,
        r->Some_0 is Err,
        r->Some_0->Err_0 is UnrecognizedFormat,
    ensures
        detect_spec(s) == Detected::Unknown || detect_spec(s) == Detected::UnknownJson,
{
}

} // verus!
