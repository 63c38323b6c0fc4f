//! The four source formats and their pairing.
use vstd::prelude::*;

verus! {

/// The four formats that an input can be in.
#[derive(Clone, Copy, Debug, PartialEq, Eq, Structural)]
pub enum SourceType {
    ICalendar,
    JSCalendar,
    VCard,
    JSContact,
}

/// The format of the same domain in the other representation.
pub open spec fn counterpart_of(t: SourceType) -> SourceType {
    match t {
        SourceType::ICalendar => SourceType::JSCalendar,
        SourceType::JSCalendar => SourceType::ICalendar,
        SourceType::VCard => SourceType::JSContact,
        SourceType::JSContact => SourceType::VCard,
    }
}

/// The display name of a format.
pub open spec fn name_of(t: SourceType) -> Seq<char> {
    match t {
        SourceType::ICalendar => "iCalendar"@,
        SourceType::JSCalendar => "JSCalendar"@,
        SourceType::VCard => "vCard"@,
        SourceType::JSContact => "JSContact"@,
    }
}

/// True of the two calendar formats.
pub open spec fn is_calendar(t: SourceType) -> bool {
    t == SourceType::ICalendar || t == SourceType::JSCalendar
}

impl SourceType {
    pub fn as_str(&self) -> (r: &'static str)
        ensures
            r@ == name_of(*self),
    {
        match self {
            SourceType::ICalendar => "iCalendar",
            SourceType::JSCalendar => "JSCalendar",
            SourceType::VCard => "vCard",
            SourceType::JSContact => "JSContact",
        }
    }

    pub fn counterpart(&self) -> (r: SourceType)
        ensures
            r == counterpart_of(*self),
            is_calendar(r) == is_calendar(*self),
            r != *self,
    {
        match self {
            SourceType::ICalendar => SourceType::JSCalendar,
            SourceType::JSCalendar => SourceType::ICalendar,
            SourceType::VCard => SourceType::JSContact,
            SourceType::JSContact => SourceType::VCard,
        }
    }
}

/// Taking the counterpart twice gives back the format one started from.
pub proof fn lemma_counterpart_involutive(t: SourceType)
    ensures
        counterpart_of(counterpart_of(t)) == t,
{
}

} // verus!
