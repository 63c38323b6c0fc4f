//! Format detection from the first characters and the domain keys of a text.
use vstd::prelude::*;
use crate::text::{
    chars_of, contains, contains_from, is_white, lead_white_len, lemma_all_white,
    lemma_lead_white_bound, lemma_trim_start_idempotent, starts_with, starts_with_at,
    trim_start_of,
};
use vstd::string::StrSliceExecFns;

verus! {

/// What a cheap look at the input tells about its format.
#[derive(Clone, Copy, Debug, PartialEq, Eq, Structural)]
pub enum Detected {
    /// Nothing but white space.
    Empty,
    /// A `BEGIN:` block: iCalendar or vCard, which only parsing tells apart.
    Legacy,
    /// A JSON object that names a `"Group"`.
    CalendarJson,
    /// A JSON object that names a `"Card"` and no `"Group"`.
    ContactJson,
    /// A JSON object that names neither.
    UnknownJson,
    /// Anything else.
    Unknown,
}

/// The classification of text that has already lost its leading white space.
pub open spec fn classify_spec(t: Seq<char>) -> Detected {
    if t.len() == 0 {
        Detected::Empty
    } else if starts_with(t, "BEGIN:"@) {
        Detected::Legacy
    } else if starts_with(t, "{"@) {
        if contains(t, "\"Group\""@) {
            Detected::CalendarJson
        } else if contains(t, "\"Card\""@) {
            Detected::ContactJson
        } else {
            Detected::UnknownJson
        }
    } else {
        Detected::Unknown
    }
}

/// The classification of raw input text.
pub open spec fn detect_spec(s: Seq<char>) -> Detected {
    classify_spec(trim_start_of(s))
}

/// Classifies characters that hold no leading white space.
pub fn classify(t: &Vec<char>) -> (r: Detected)
    ensures
        r == classify_spec(t@),
{
    proof {
        reveal_strlit("BEGIN:");
        reveal_strlit("{");
        reveal_strlit("\"Group\"");
        reveal_strlit("\"Card\"");
        assert(t@.subrange(0, t@.len() as int) =~= t@);
    }
    if t.len() == 0 {
        Detected::Empty
    } else if starts_with_at(t, 0, "BEGIN:") {
        Detected::Legacy
    } else if starts_with_at(t, 0, "{") {
        if contains_from(t, 0, "\"Group\"") {
            Detected::CalendarJson
        } else if contains_from(t, 0, "\"Card\"") {
            Detected::ContactJson
        } else {
            Detected::UnknownJson
        }
    } else {
        Detected::Unknown
    }
}

/// `text` without its leading white space.
pub fn trim_start(text: &str) -> (r: &str)
    ensures
        r@ == trim_start_of(text@),
{
    let cs = chars_of(text);
    let k = lead_white_len(&cs);
    proof {
        lemma_lead_white_bound(text@);
    }
    text.substring_char(k, cs.len())
}

/// Classifies raw input text by its first characters and, for JSON, by the
/// domain keys it names; no parsing is done.
pub fn detect(text: &str) -> (r: Detected)
    ensures
        r == detect_spec(text@),
{
    let t = trim_start(text);
    let cs = chars_of(t);
    classify(&cs)
}

/// Detection gives the same answer on the text and on the text it looks at,
/// so running it again on what it saw changes nothing.
pub proof fn lemma_detect_stable(s: Seq<char>)
    ensures
        detect_spec(trim_start_of(s)) == detect_spec(s),
{
    lemma_trim_start_idempotent(s);
}

/// Text made of white space alone, the empty text included, is detected as
/// empty, and so gives neither a result nor an error.
pub proof fn lemma_blank_is_empty(s: Seq<char>)
    requires
        forall|i: int| 0 <= i < s.len() ==> is_white(#[trigger] s[i]),
    ensures
        detect_spec(s) == Detected::Empty,
{
    lemma_all_white(s);
}

} // verus!
