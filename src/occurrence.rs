//! Occurrences of calendar events: ordering, capping and their labels.
use vstd::prelude::*;
use vstd::seq_lib::{to_multiset_build, to_multiset_insert};
use vstd::string::StringExecFns;

verus! {

/// A local calendar date and wall-clock time, as the zone of an instant
/// shows it. `weekday` counts from Monday (0) to Sunday (6).
#[derive(Clone, Copy, Debug, PartialEq, Eq, Structural)]
pub struct Civil {
    pub year: i32,
    pub month: u32,
    pub day: u32,
    pub weekday: u32,
    pub hour: u32,
    pub minute: u32,
}

/// A point in time: its place on the UTC time line, how it reads locally,
/// and the name of its zone (`None` for a floating time).
#[derive(Clone, Debug)]
pub struct Instant {
    pub seconds: i64,
    pub nanos: u32,
    pub civil: Civil,
    pub zone: Option<String>,
}

/// The start and end of one concrete instance of an event.
#[derive(Clone, Debug)]
pub struct Span {
    pub start: Instant,
    pub end: Instant,
}

/// One occurrence, with the labels under which it is shown.
#[derive(Clone, Debug)]
pub struct Occurrence {
    pub start: Instant,
    pub end: Instant,
    pub from: String,
    pub to: String,
}

pub open spec fn civil_wf(c: Civil) -> bool {
    &&& 1 <= c.month <= 12
    &&& 1 <= c.day <= 31
    &&& c.weekday < 7
    &&& c.hour < 24
    &&& c.minute < 60
}

pub open spec fn instant_wf(i: Instant) -> bool {
    civil_wf(i.civil) && i.nanos < 2_000_000_000
}

pub open spec fn span_wf(s: Span) -> bool {
    instant_wf(s.start) && instant_wf(s.end)
}

/// Position on the time line, in nanoseconds; a leap second keeps its place
/// after the second it extends.
pub open spec fn key_of(i: Instant) -> int {
    i.seconds as int * 2_000_000_000 + i.nanos as int
}

pub open spec fn spans_sorted(s: Seq<Span>) -> bool {
    forall|i: int, j: int| 0 <= i < j < s.len() ==> key_of(s[i].start) <= key_of(s[j].start)
}

pub open spec fn occurrences_sorted(s: Seq<Occurrence>) -> bool {
    forall|i: int, j: int| 0 <= i < j < s.len() ==> key_of(s[i].start) <= key_of(s[j].start)
}

pub open spec fn weekday_abbrev(d: u32) -> Seq<char> {
    if d == 0 { "Mon"@ }
    else if d == 1 { "Tue"@ }
    else if d == 2 { "Wed"@ }
    else if d == 3 { "Thu"@ }
    else if d == 4 { "Fri"@ }
    else if d == 5 { "Sat"@ }
    else { "Sun"@ }
}

pub open spec fn month_abbrev(m: u32) -> Seq<char> {
    if m == 1 { "Jan"@ }
    else if m == 2 { "Feb"@ }
    else if m == 3 { "Mar"@ }
    else if m == 4 { "Apr"@ }
    else if m == 5 { "May"@ }
    else if m == 6 { "Jun"@ }
    else if m == 7 { "Jul"@ }
    else if m == 8 { "Aug"@ }
    else if m == 9 { "Sep"@ }
    else if m == 10 { "Oct"@ }
    else if m == 11 { "Nov"@ }
    else { "Dec"@ }
}

pub open spec fn digit_char(d: nat) -> char {
    if d == 0 { '0' }
    else if d == 1 { '1' }
    else if d == 2 { '2' }
    else if d == 3 { '3' }
    else if d == 4 { '4' }
    else if d == 5 { '5' }
    else if d == 6 { '6' }
    else if d == 7 { '7' }
    else if d == 8 { '8' }
    else { '9' }
}

/// Decimal digits of `n`, without leading zeros.
pub open spec fn decimal(n: nat) -> Seq<char>
    decreases n,
{
    if n < 10 {
        seq![digit_char(n)]
    } else {
        decimal(n / 10).push(digit_char(n % 10))
    }
}

/// `s` preceded by zeros up to `width` characters.
pub open spec fn zero_pad(s: Seq<char>, width: nat) -> Seq<char>
    decreases width,
{
    if s.len() >= width {
        s
    } else {
        seq!['0'] + zero_pad(s, (width - 1) as nat)
    }
}

/// The year as at least four digits, with a sign outside 0..=9999.
pub open spec fn year_text(y: int) -> Seq<char> {
    if 0 <= y <= 9999 {
        zero_pad(decimal(y as nat), 4)
    } else if y > 9999 {
        "+"@ + zero_pad(decimal(y as nat), 4)
    } else {
        "-"@ + zero_pad(decimal((-y) as nat), 4)
    }
}

/// The hour on a twelve-hour clock, 1 to 12.
pub open spec fn hour12(h: u32) -> nat {
    if h % 12 == 0 { 12 } else { (h % 12) as nat }
}

pub open spec fn meridiem(h: u32) -> Seq<char> {
    if h < 12 { "am"@ } else { "pm"@ }
}

/// `Mon Jan 5, 2026 9:05am`: weekday, month, day, year, hour, minute.
pub open spec fn civil_text(c: Civil) -> Seq<char> {
    weekday_abbrev(c.weekday) + " "@ + month_abbrev(c.month) + " "@ + decimal(c.day as nat)
        + ", "@ + year_text(c.year as int) + " "@ + decimal(hour12(c.hour)) + ":"@
        + zero_pad(decimal(c.minute as nat), 2) + meridiem(c.hour)
}

pub open spec fn zone_text(z: Option<String>) -> Seq<char> {
    match z {
        Some(n) => n@,
        None => "Floating"@,
    }
}

/// The label of an instant: its local time and, in parentheses, its zone.
pub open spec fn label_of(i: Instant) -> Seq<char> {
    civil_text(i.civil) + " ("@ + zone_text(i.zone) + ")"@
}

pub open spec fn occurrence_of(s: Span, o: Occurrence) -> bool {
    &&& o.start == s.start
    &&& o.end == s.end
    &&& o.from@ == label_of(s.start)
    &&& o.to@ == label_of(s.end)
}

fn digit_str(d: u64) -> (r: &'static str)
    requires
        d < 10,
    ensures
        r@ == seq![digit_char(d as nat)],
{
    proof {
        reveal_strlit("0");
        reveal_strlit("1");
        reveal_strlit("2");
        reveal_strlit("3");
        reveal_strlit("4");
        reveal_strlit("5");
        reveal_strlit("6");
        reveal_strlit("7");
        reveal_strlit("8");
        reveal_strlit("9");
    }
    if d == 0 { "0" }
    else if d == 1 { "1" }
    else if d == 2 { "2" }
    else if d == 3 { "3" }
    else if d == 4 { "4" }
    else if d == 5 { "5" }
    else if d == 6 { "6" }
    else if d == 7 { "7" }
    else if d == 8 { "8" }
    else { "9" }
}

/// Appends the decimal digits of `n`.
fn push_decimal(out: &mut String, n: u64)
    ensures
        final(out)@ == old(out)@ + decimal(n as nat),
    decreases n,
{
    if n < 10 {
        out.append(digit_str(n));
    } else {
        push_decimal(out, n / 10);
        out.append(digit_str(n % 10));
        proof {
            assert(decimal(n as nat) == decimal((n / 10) as nat).push(digit_char((n % 10) as nat)));
        }
        assert(out@ =~= old(out)@ + decimal(n as nat));
    }
}

proof fn lemma_decimal_len(n: nat)
    ensures
        decimal(n).len() >= 1,
        n < 10 ==> decimal(n).len() == 1,
        10 <= n < 100 ==> decimal(n).len() == 2,
        100 <= n < 1000 ==> decimal(n).len() == 3,
        1000 <= n ==> decimal(n).len() >= 4,
    decreases n,
{
    if n >= 10 {
        lemma_decimal_len(n / 10);
    }
}

/// Appends the decimal digits of `n`, with zeros in front up to `width`.
fn push_padded(out: &mut String, n: u64, width: u64)
    requires
        width <= 4,
    ensures
        final(out)@ == old(out)@ + zero_pad(decimal(n as nat), width as nat),
{
    proof {
        lemma_decimal_len(n as nat);
        reveal_strlit("0");
    }
    let digits: u64 = if n < 10 { 1 } else if n < 100 { 2 } else if n < 1000 { 3 } else { 4 };
    let mut w: u64 = width;
    while w > digits
        invariant
            w <= width <= 4,
            digits <= 4,
            old(out)@ + zero_pad(decimal(n as nat), width as nat) == out@ + zero_pad(
                decimal(n as nat),
                w as nat,
            ),
            n < 1000 ==> decimal(n as nat).len() == digits,
            n >= 1000 ==> decimal(n as nat).len() >= 4 && digits == 4,
        decreases w,
    {
        let ghost before = out@;
        let ghost d = decimal(n as nat);
        assert(d.len() < w as nat);
        assert(zero_pad(d, w as nat) == seq!['0'] + zero_pad(d, (w - 1) as nat));
        out.append("0");
        proof {
            reveal_strlit("0");
        }
        assert(zero_pad(decimal(n as nat), w as nat) == seq!['0'] + zero_pad(
            decimal(n as nat),
            (w - 1) as nat,
        ));
        assert(out@ + zero_pad(decimal(n as nat), (w - 1) as nat) =~= before + zero_pad(
            decimal(n as nat),
            w as nat,
        ));
        w = w - 1;
    }
    assert(zero_pad(decimal(n as nat), w as nat) == decimal(n as nat));
    push_decimal(out, n);
}

fn weekday_str(d: u32) -> (r: &'static str)
    ensures
        r@ == weekday_abbrev(d),
{
    if d == 0 { "Mon" }
    else if d == 1 { "Tue" }
    else if d == 2 { "Wed" }
    else if d == 3 { "Thu" }
    else if d == 4 { "Fri" }
    else if d == 5 { "Sat" }
    else { "Sun" }
}

fn month_str(m: u32) -> (r: &'static str)
    ensures
        r@ == month_abbrev(m),
{
    if m == 1 { "Jan" }
    else if m == 2 { "Feb" }
    else if m == 3 { "Mar" }
    else if m == 4 { "Apr" }
    else if m == 5 { "May" }
    else if m == 6 { "Jun" }
    else if m == 7 { "Jul" }
    else if m == 8 { "Aug" }
    else if m == 9 { "Sep" }
    else if m == 10 { "Oct" }
    else if m == 11 { "Nov" }
    else { "Dec" }
}

/// Appends the year as `%Y` writes it.
fn push_year(out: &mut String, y: i32)
    ensures
        final(out)@ == old(out)@ + year_text(y as int),
{
    proof {
        reveal_strlit("+");
        reveal_strlit("-");
    }
    let ghost start = out@;
    if 0 <= y && y <= 9999 {
        push_padded(out, y as u64, 4);
    } else if y > 9999 {
        out.append("+");
        push_padded(out, y as u64, 4);
        assert(out@ =~= start + year_text(y as int));
    } else {
        out.append("-");
        let m: i64 = -(y as i64);
        push_padded(out, m as u64, 4);
        assert(out@ =~= start + year_text(y as int));
    }
}

/// The label of an instant: `Mon Jan 5, 2026 9:05am (Europe/Paris)`, with
/// `Floating` for an instant that has no zone.
pub fn format_instant(i: &Instant) -> (r: String)
    requires
        instant_wf(*i),
    ensures
        r@ == label_of(*i),
{
    let c = i.civil;
    let mut out = String::new();
    out.append(weekday_str(c.weekday));
    out.append(" ");
    out.append(month_str(c.month));
    out.append(" ");
    push_decimal(&mut out, c.day as u64);
    out.append(", ");
    push_year(&mut out, c.year);
    out.append(" ");
    let h12: u32 = if c.hour % 12 == 0 { 12 } else { c.hour % 12 };
    push_decimal(&mut out, h12 as u64);
    out.append(":");
    push_padded(&mut out, c.minute as u64, 2);
    if c.hour < 12 {
        out.append("am");
    } else {
        out.append("pm");
    }
    out.append(" (");
    match &i.zone {
        Some(z) => out.append(z.as_str()),
        None => out.append("Floating"),
    }
    out.append(")");
    proof {
        reveal_strlit(" ");
        reveal_strlit(", ");
        reveal_strlit(":");
        reveal_strlit("am");
        reveal_strlit("pm");
        reveal_strlit(" (");
        reveal_strlit("Floating");
        reveal_strlit(")");
    }
    assert(out@ =~= label_of(*i));
    out
}

/// The spans of `v` that resolved, in their order.
pub open spec fn resolved(v: Seq<Option<Span>>) -> Seq<Span>
    decreases v.len(),
{
    if v.len() == 0 {
        Seq::empty()
    } else {
        match v.last() {
            Some(s) => resolved(v.drop_last()).push(s),
            None => resolved(v.drop_last()),
        }
    }
}

pub open spec fn all_resolved_wf(v: Seq<Option<Span>>) -> bool {
    forall|i: int| 0 <= i < v.len() && (#[trigger] v[i]) is Some ==> span_wf(v[i]->Some_0)
}

/// Keeps the spans that resolved, in their order; the others are dropped.
pub fn keep_resolved(v: Vec<Option<Span>>) -> (r: Vec<Span>)
    ensures
        r@ == resolved(v@),
        all_resolved_wf(v@) ==> forall|k: int| 0 <= k < r.len() ==> span_wf(#[trigger] r[k]),
{
    let mut r: Vec<Span> = Vec::new();
    let mut i: usize = 0;
    while i < v.len()
        invariant
            i <= v.len(),
            r@ == resolved(v@.subrange(0, i as int)),
            all_resolved_wf(v@) ==> forall|k: int| 0 <= k < r.len() ==> span_wf(#[trigger] r[k]),
        decreases v.len() - i,
    {
        assert(v@.subrange(0, i + 1).drop_last() =~= v@.subrange(0, i as int));
        match &v[i] {
            Some(s) => r.push(s.clone_span()),
            None => {},
        }
        i = i + 1;
    }
    assert(v@.subrange(0, v.len() as int) =~= v@);
    r
}

impl Instant {
    pub fn clone_instant(&self) -> (r: Instant)
        ensures
            r == *self,
    {
        Instant {
            seconds: self.seconds,
            nanos: self.nanos,
            civil: self.civil,
            zone: match &self.zone {
                Some(z) => Some(z.clone()),
                None => None,
            },
        }
    }
}

impl Span {
    pub fn clone_span(&self) -> (r: Span)
        ensures
            r == *self,
    {
        Span { start: self.start.clone_instant(), end: self.end.clone_instant() }
    }
}

/// Whether `a` starts strictly after `b`.
fn starts_after(a: &Span, b: &Span) -> (r: bool)
    requires
        span_wf(*a),
        span_wf(*b),
    ensures
        r == (key_of(a.start) > key_of(b.start)),
{
    a.start.seconds > b.start.seconds || (a.start.seconds == b.start.seconds
        && a.start.nanos > b.start.nanos)
}

/// Orders spans by their start, by insertion: each span goes after those
/// already placed that start no later than it.
pub fn sort_by_start(v: Vec<Span>) -> (r: Vec<Span>)
    requires
        forall|i: int| 0 <= i < v.len() ==> span_wf(#[trigger] v[i]),
    ensures
        spans_sorted(r@),
        r@.to_multiset() == v@.to_multiset(),
        r.len() == v.len(),
        forall|i: int| 0 <= i < r.len() ==> span_wf(#[trigger] r[i]),
{
    broadcast use to_multiset_build, to_multiset_insert;

    let mut r: Vec<Span> = Vec::new();
    let mut i: usize = 0;
    assert(r@ =~= v@.subrange(0, 0));
    while i < v.len()
        invariant
            i <= v.len(),
            forall|k: int| 0 <= k < v.len() ==> span_wf(#[trigger] v[k]),
            forall|k: int| 0 <= k < r.len() ==> span_wf(#[trigger] r[k]),
            spans_sorted(r@),
            r@.to_multiset() == v@.subrange(0, i as int).to_multiset(),
            r.len() == i,
        decreases v.len() - i,
    {
        let x = v[i].clone_span();
        let mut p: usize = 0;
        while p < r.len() && !starts_after(&r[p], &x)
            invariant
                p <= r.len(),
                span_wf(x),
                forall|k: int| 0 <= k < r.len() ==> span_wf(#[trigger] r[k]),
                forall|k: int| 0 <= k < p ==> key_of(#[trigger] r[k].start) <= key_of(x.start),
            decreases r.len() - p,
        {
            p = p + 1;
        }
        let ghost before = r@;
        r.insert(p, x);
        assert(r@ == before.insert(p as int, x));
        assert forall|a: int, b: int| 0 <= a < b < r.len() implies key_of(r@[a].start) <= key_of(
            r@[b].start,
        ) by {
            if b < p {
            } else if b == p {
            } else if a < p {
                assert(key_of(before[a].start) <= key_of(x.start));
                assert(key_of(before[p as int].start) > key_of(x.start));
                if b - 1 > p {
                    assert(key_of(before[p as int].start) <= key_of(before[b - 1].start));
                }
            } else if a == p {
                assert(key_of(before[p as int].start) > key_of(x.start));
                if b - 1 > p {
                    assert(key_of(before[p as int].start) <= key_of(before[b - 1].start));
                }
            } else {
                assert(key_of(before[a - 1].start) <= key_of(before[b - 1].start));
            }
        }
        assert(v@.subrange(0, i + 1) =~= v@.subrange(0, i as int).push(v@[i as int]));
        proof {
            to_multiset_insert(before, p as int, x);
            to_multiset_build(v@.subrange(0, i as int), v@[i as int]);
        }
        i = i + 1;
    }
    assert(v@.subrange(0, v.len() as int) =~= v@);
    r
}

/// Labels one span.
pub fn occurrence(s: &Span) -> (r: Occurrence)
    requires
        span_wf(*s),
    ensures
        occurrence_of(*s, r),
{
    Occurrence {
        start: s.start.clone_instant(),
        end: s.end.clone_instant(),
        from: format_instant(&s.start),
        to: format_instant(&s.end),
    }
}

/// The occurrences that a list of expanded instances gives: the instances
/// that resolved to a start and an end, ordered by start, at most `max` of
/// them, each with its labels.
pub fn occurrences_of(v: Vec<Option<Span>>, max: usize) -> (r: Vec<Occurrence>)
    requires
        all_resolved_wf(v@),
    ensures
        r.len() <= max,
        r.len() == if resolved(v@).len() < max { resolved(v@).len() } else { max as nat },
        occurrences_sorted(r@),
        exists|s: Seq<Span>|
            {
                &&& spans_sorted(s)
                &&& s.to_multiset() == resolved(v@).to_multiset()
                &&& forall|i: int| 0 <= i < r.len() ==> occurrence_of(s[i], #[trigger] r[i])
            },
{
    let kept = keep_resolved(v);
    let sorted = sort_by_start(kept);
    let n: usize = if sorted.len() < max { sorted.len() } else { max };
    let mut r: Vec<Occurrence> = Vec::new();
    let mut i: usize = 0;
    proof {
        sorted@.to_multiset_ensures();
        kept@.to_multiset_ensures();
    }
    while i < n
        invariant
            n <= sorted.len(),
            n <= max,
            i <= n,
            r.len() == i,
            forall|k: int| 0 <= k < sorted.len() ==> span_wf(#[trigger] sorted[k]),
            forall|k: int| 0 <= k < i ==> occurrence_of(sorted@[k], #[trigger] r@[k]),
        decreases n - i,
    {
        r.push(occurrence(&sorted[i]));
        i = i + 1;
    }
    assert(sorted.len() == kept.len());
    assert(occurrences_sorted(r@)) by {
        assert forall|a: int, b: int| 0 <= a < b < r.len() implies key_of(r@[a].start) <= key_of(
            r@[b].start,
        ) by {
            assert(occurrence_of(sorted@[a], r@[a]));
            assert(occurrence_of(sorted@[b], r@[b]));
        }
    }
    assert(forall|i: int| 0 <= i < r.len() ==> occurrence_of(sorted@[i], #[trigger] r@[i]));
    r
}

} // verus!
