//! Character-level text helpers: white space, prefixes and substrings.
use vstd::prelude::*;
use vstd::string::StrSliceExecFns;

verus! {

/// Unicode White_Space, the set that `char::is_whitespace` tests.
pub open spec fn is_white(c: char) -> bool {
    ||| c == ' ' || c == '\t' || c == '\n' || c == '\x0B' || c == '\x0C' || c == '\r'
    ||| c == '\u{85}' || c == '\u{A0}' || c == '\u{1680}'
    ||| ('\u{2000}' <= c && c <= '\u{200A}')
    ||| c == '\u{2028}' || c == '\u{2029}' || c == '\u{202F}' || c == '\u{205F}'
    ||| c == '\u{3000}'
}

pub fn is_white_char(c: char) -> (r: bool)
    ensures
        r == is_white(c),
{
    c == ' ' || c == '\t' || c == '\n' || c == '\x0B' || c == '\x0C' || c == '\r'
        || c == '\u{85}' || c == '\u{A0}' || c == '\u{1680}'
        || ('\u{2000}' <= c && c <= '\u{200A}')
        || c == '\u{2028}' || c == '\u{2029}' || c == '\u{202F}' || c == '\u{205F}'
        || c == '\u{3000}'
}

/// Number of leading white-space characters of `s`.
pub open spec fn lead_white(s: Seq<char>) -> nat
    decreases s.len(),
{
    if s.len() > 0 && is_white(s[0]) {
        1 + lead_white(s.drop_first())
    } else {
        0
    }
}

/// Number of trailing white-space characters of `s`.
pub open spec fn trail_white(s: Seq<char>) -> nat
    decreases s.len(),
{
    if s.len() > 0 && is_white(s.last()) {
        1 + trail_white(s.drop_last())
    } else {
        0
    }
}

/// `s` without its leading white space.
pub open spec fn trim_start_of(s: Seq<char>) -> Seq<char> {
    s.subrange(lead_white(s) as int, s.len() as int)
}

/// `s` without its trailing white space.
pub open spec fn trim_end_of(s: Seq<char>) -> Seq<char> {
    s.subrange(0, s.len() - trail_white(s))
}

pub open spec fn starts_with(s: Seq<char>, p: Seq<char>) -> bool {
    p.len() <= s.len() && s.subrange(0, p.len() as int) == p
}

pub open spec fn occurs_at(s: Seq<char>, p: Seq<char>, i: int) -> bool {
    0 <= i && i + p.len() <= s.len() && s.subrange(i, i + p.len()) == p
}

pub open spec fn contains(s: Seq<char>, p: Seq<char>) -> bool {
    exists|i: int| occurs_at(s, p, i)
}

pub proof fn lemma_lead_white_bound(s: Seq<char>)
    ensures
        lead_white(s) <= s.len(),
        forall|i: int| 0 <= i < lead_white(s) ==> is_white(#[trigger] s[i]),
        lead_white(s) < s.len() ==> !is_white(s[lead_white(s) as int]),
    decreases s.len(),
{
    if s.len() > 0 && is_white(s[0]) {
        lemma_lead_white_bound(s.drop_first());
        assert forall|i: int| 0 <= i < lead_white(s) implies is_white(#[trigger] s[i]) by {
            if i > 0 {
                assert(s[i] == s.drop_first()[i - 1]);
            }
        }
    }
}

proof fn lemma_lead_white_skip(s: Seq<char>, k: int)
    requires
        0 <= k <= s.len(),
        forall|i: int| 0 <= i < k ==> is_white(#[trigger] s[i]),
    ensures
        lead_white(s) == k + lead_white(s.subrange(k, s.len() as int)),
    decreases k,
{
    if k > 0 {
        lemma_lead_white_skip(s.drop_first(), k - 1);
        assert(s.drop_first().subrange(k - 1, s.drop_first().len() as int) =~= s.subrange(
            k,
            s.len() as int,
        ));
    } else {
        assert(s.subrange(0, s.len() as int) =~= s);
    }
}

pub proof fn lemma_trail_white_bound(s: Seq<char>)
    ensures
        trail_white(s) <= s.len(),
        forall|i: int| s.len() - trail_white(s) <= i < s.len() ==> is_white(#[trigger] s[i]),
        trail_white(s) < s.len() ==> !is_white(s[s.len() - trail_white(s) - 1]),
    decreases s.len(),
{
    if s.len() > 0 && is_white(s.last()) {
        lemma_trail_white_bound(s.drop_last());
        assert forall|i: int| s.len() - trail_white(s) <= i < s.len() implies is_white(
            #[trigger] s[i],
        ) by {
            if i < s.len() - 1 {
                assert(s[i] == s.drop_last()[i]);
            }
        }
    }
}

proof fn lemma_trail_white_skip(s: Seq<char>, k: int)
    requires
        0 <= k <= s.len(),
        forall|i: int| s.len() - k <= i < s.len() ==> is_white(#[trigger] s[i]),
    ensures
        trail_white(s) == k + trail_white(s.subrange(0, s.len() - k)),
    decreases k,
{
    if k > 0 {
        lemma_trail_white_skip(s.drop_last(), k - 1);
        assert(s.drop_last().subrange(0, s.drop_last().len() - (k - 1)) =~= s.subrange(
            0,
            s.len() - k,
        ));
    } else {
        assert(s.subrange(0, s.len() as int) =~= s);
    }
}

/// Text that is all white space trims to nothing.
pub proof fn lemma_all_white(s: Seq<char>)
    requires
        forall|i: int| 0 <= i < s.len() ==> is_white(#[trigger] s[i]),
    ensures
        trim_start_of(s).len() == 0,
{
    lemma_lead_white_skip(s, s.len() as int);
}

/// Trimming leading white space a second time changes nothing.
pub proof fn lemma_trim_start_idempotent(s: Seq<char>)
    ensures
        trim_start_of(trim_start_of(s)) == trim_start_of(s),
{
    lemma_lead_white_bound(s);
    let t = trim_start_of(s);
    if t.len() > 0 {
        assert(t[0] == s[lead_white(s) as int]);
    }
    assert(lead_white(t) == 0);
    assert(t.subrange(0, t.len() as int) =~= t);
}

/// The characters of `s`, one element each.
pub fn chars_of(s: &str) -> (r: Vec<char>)
    ensures
        r@ == s@,
{
    let n = s.unicode_len();
    let mut r: Vec<char> = Vec::new();
    let mut i: usize = 0;
    while i < n
        invariant
            n == s@.len(),
            i <= n,
            r@ == s@.subrange(0, i as int),
        decreases n - i,
    {
        r.push(s.get_char(i));
        i = i + 1;
        assert(r@ =~= s@.subrange(0, i as int));
    }
    assert(r@ =~= s@);
    r
}

/// Index of the first character of `s` that is not white space.
pub fn lead_white_len(s: &Vec<char>) -> (r: usize)
    ensures
        r == lead_white(s@),
{
    let mut i: usize = 0;
    while i < s.len() && is_white_char(s[i])
        invariant
            i <= s.len(),
            forall|j: int| 0 <= j < i ==> is_white(#[trigger] s@[j]),
        decreases s.len() - i,
    {
        i = i + 1;
    }
    proof {
        lemma_lead_white_skip(s@, i as int);
        let rest = s@.subrange(i as int, s@.len() as int);
        if rest.len() > 0 {
            assert(rest[0] == s@[i as int]);
        }
    }
    i
}

/// Number of trailing white-space characters of `s`.
pub fn trail_white_len(s: &Vec<char>) -> (r: usize)
    ensures
        r == trail_white(s@),
{
    let mut k: usize = 0;
    while k < s.len() && is_white_char(s[s.len() - 1 - k])
        invariant
            k <= s.len(),
            forall|j: int| s.len() - k <= j < s.len() ==> is_white(#[trigger] s@[j]),
        decreases s.len() - k,
    {
        k = k + 1;
    }
    proof {
        lemma_trail_white_skip(s@, k as int);
        let rest = s@.subrange(0, s@.len() - k);
        if rest.len() > 0 {
            assert(rest.last() == s@[s.len() - 1 - k]);
        }
    }
    k
}

/// Whether `s` begins at position `from` with `p`.
pub fn starts_with_at(s: &Vec<char>, from: usize, p: &str) -> (r: bool)
    requires
        from <= s.len(),
    ensures
        r == starts_with(s@.subrange(from as int, s.len() as int), p@),
{
    let n = p.unicode_len();
    if n > s.len() - from {
        return false;
    }
    let mut i: usize = 0;
    while i < n
        invariant
            n == p@.len(),
            from + n <= s.len(),
            i <= n,
            forall|j: int| 0 <= j < i ==> s@[from + j] == p@[j],
        decreases n - i,
    {
        if s[from + i] != p.get_char(i) {
            return false;
        }
        i = i + 1;
    }
    assert(s@.subrange(from as int, s.len() as int).subrange(0, n as int) =~= p@);
    true
}

/// Whether `p` occurs anywhere in `s` at or after position `from`.
pub fn contains_from(s: &Vec<char>, from: usize, p: &str) -> (r: bool)
    requires
        from <= s.len(),
    ensures
        r == contains(s@.subrange(from as int, s.len() as int), p@),
{
    let ghost t = s@.subrange(from as int, s.len() as int);
    let n = p.unicode_len();
    if n == 0 {
        assert(occurs_at(t, p@, 0)) by {
            assert(t.subrange(0, 0) =~= p@);
        }
        return true;
    }
    let mut i: usize = from;
    while i < s.len() && n <= s.len() - i
        invariant
            from <= i <= s.len(),
            n == p@.len(),
            n > 0,
            t == s@.subrange(from as int, s.len() as int),
            forall|j: int| 0 <= j < i - from ==> !occurs_at(t, p@, j),
        decreases s.len() - i,
    {
        if starts_with_at(s, i, p) {
            assert(occurs_at(t, p@, i - from)) by {
                assert(t.subrange(i - from, i - from + p@.len()) =~= s@.subrange(
                    i as int,
                    s.len() as int,
                ).subrange(0, p@.len() as int));
            }
            return true;
        }
        assert(!occurs_at(t, p@, i - from)) by {
            if occurs_at(t, p@, i - from) {
                assert(t.subrange(i - from, i - from + p@.len()) =~= s@.subrange(
                    i as int,
                    s.len() as int,
                ).subrange(0, p@.len() as int));
            }
        }
        i = i + 1;
    }
    false
}

} // verus!
