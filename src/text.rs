//! Character-level helpers over strings, and the stripping of hidden-line
//! markers (`# ` at the start of a line).
use vstd::prelude::*;

verus! {

/// Relies on `str::chars`, collected: the characters of the string, in order.
#[verifier::external_body]
pub(crate) fn chars_of(s: &str) -> (r: Vec<char>)
    ensures
        r@ == s@,
{
    s.chars().collect()
}

/// Relies on `String`'s `FromIterator<&char>`: the string of these characters.
#[verifier::external_body]
pub(crate) fn string_of(c: &[char]) -> (r: String)
    ensures
        r@ == c@,
{
    c.iter().collect()
}

/// The blanks that trimming removes.
pub open spec fn is_blank(c: char) -> bool {
    c == ' ' || c == '\t' || c == '\r' || c == '\n' || c == '\x0b' || c == '\x0c'
}

/// The text without its leading blanks.
pub open spec fn trim_start(s: Seq<char>) -> Seq<char>
    decreases s.len(),
{
    if s.len() > 0 && is_blank(s[0]) {
        trim_start(s.drop_first())
    } else {
        s
    }
}

/// The text without its trailing blanks.
pub open spec fn trim_end(s: Seq<char>) -> Seq<char>
    decreases s.len(),
{
    if s.len() > 0 && is_blank(s.last()) {
        trim_end(s.drop_last())
    } else {
        s
    }
}

/// The text without leading or trailing blanks.
pub open spec fn trim(s: Seq<char>) -> Seq<char> {
    trim_end(trim_start(s))
}

/// Whether the character occurs in the text.
pub fn contains_char(s: &[char], c: char) -> (r: bool)
    ensures
        r == s@.contains(c),
{
    let mut i: usize = 0;
    while i < s.len()
        invariant
            i <= s.len(),
            forall|k: int| 0 <= k < i ==> s@[k] != c,
        decreases s.len() - i,
    {
        if s[i] == c {
            return true;
        }
        i = i + 1;
    }
    false
}

/// The bounds of the text left once its leading and trailing blanks are gone.
pub fn trim_bounds(s: &[char]) -> (r: (usize, usize))
    ensures
        r.0 <= r.1 <= s@.len(),
        s@.subrange(r.0 as int, r.1 as int) == trim(s@),
{
    let mut lo: usize = 0;
    assert(s@.subrange(0, s@.len() as int) =~= s@);
    while lo < s.len() && is_blank_char(s[lo])
        invariant
            lo <= s.len(),
            trim_start(s@.subrange(lo as int, s@.len() as int)) == trim_start(s@),
        decreases s.len() - lo,
    {
        assert(s@.subrange(lo as int, s@.len() as int).drop_first() =~= s@.subrange(lo + 1, s@.len() as int));
        lo = lo + 1;
    }
    assert(trim_start(s@) == s@.subrange(lo as int, s@.len() as int));
    let mut hi: usize = s.len();
    while hi > lo && is_blank_char(s[hi - 1])
        invariant
            lo <= hi <= s.len(),
            trim_end(s@.subrange(lo as int, hi as int)) == trim(s@),
        decreases hi,
    {
        assert(s@.subrange(lo as int, hi as int).drop_last() =~= s@.subrange(lo as int, hi - 1));
        hi = hi - 1;
    }
    (lo, hi)
}

/// Whether the character is one of the blanks that trimming removes.
pub fn is_blank_char(c: char) -> (r: bool)
    ensures
        r == is_blank(c),
{
    c == ' ' || c == '\t' || c == '\r' || c == '\n' || c == '\x0b' || c == '\x0c'
}

/// The text with a `# ` marker removed from the start of each line; `at_start`
/// says whether the text begins at the start of a line.
pub open spec fn strip_from(s: Seq<char>, at_start: bool) -> Seq<char>
    decreases s.len(),
{
    if s.len() == 0 {
        s
    } else if at_start && s.len() >= 2 && s[0] == '#' && s[1] == ' ' {
        strip_from(s.skip(2), false)
    } else {
        seq![s[0]] + strip_from(s.drop_first(), s[0] == '\n')
    }
}

/// The text with the `# ` marker removed from the start of each line.
pub open spec fn strip_markers_spec(s: Seq<char>) -> Seq<char> {
    strip_from(s, true)
}

/// Whether some line of the text, read from `at_start` as for `strip_from`,
/// begins with a `# ` marker.
pub open spec fn has_marker_from(s: Seq<char>, at_start: bool) -> bool
    decreases s.len(),
{
    if s.len() == 0 {
        false
    } else if at_start && s.len() >= 2 && s[0] == '#' && s[1] == ' ' {
        true
    } else {
        has_marker_from(s.drop_first(), s[0] == '\n')
    }
}

/// Stripping changes nothing in text, read from `at_start`, whose lines hold
/// no marker.
pub proof fn lemma_strip_from_unmarked(s: Seq<char>, at_start: bool)
    requires
        !has_marker_from(s, at_start),
    ensures
        strip_from(s, at_start) == s,
    decreases s.len(),
{
    if s.len() > 0 {
        lemma_strip_from_unmarked(s.drop_first(), s[0] == '\n');
        assert(seq![s[0]] + s.drop_first() =~= s);
    }
}

/// Stripping the markers of text whose lines begin with none leaves it as it
/// is; so stripping text a second time changes nothing once the first
/// stripping left no line beginning with a marker.
pub proof fn lemma_strip_idempotent(s: Seq<char>)
    ensures
        !has_marker_from(s, true) ==> strip_markers_spec(s) == s,
        !has_marker_from(strip_markers_spec(s), true) ==> strip_markers_spec(
            strip_markers_spec(s),
        ) == strip_markers_spec(s),
{
    if !has_marker_from(s, true) {
        lemma_strip_from_unmarked(s, true);
    }
    if !has_marker_from(strip_markers_spec(s), true) {
        lemma_strip_from_unmarked(strip_markers_spec(s), true);
    }
}

/// Removes the `# ` marker that hides a line from the start of each line.
pub fn strip_markers(input: &str) -> (r: String)
    ensures
        r@ == strip_markers_spec(input@),
{
    let s = chars_of(input);
    let mut out: Vec<char> = Vec::new();
    let mut i: usize = 0;
    let mut at_start = true;
    assert(s@.subrange(0, s@.len() as int) =~= s@);
    assert(out@ + strip_from(s@, true) =~= strip_from(s@, true));
    while i < s.len()
        invariant
            i <= s.len(),
            out@ + strip_from(s@.subrange(i as int, s@.len() as int), at_start) == strip_from(s@, true),
        decreases s.len() - i,
    {
        let ghost rest = s@.subrange(i as int, s@.len() as int);
        if at_start && i + 1 < s.len() && s[i] == '#' && s[i + 1] == ' ' {
            assert(rest.skip(2) =~= s@.subrange(i + 2, s@.len() as int));
            i = i + 2;
            at_start = false;
        } else {
            assert(rest.drop_first() =~= s@.subrange(i + 1, s@.len() as int));
            let c = s[i];
            let ghost before = out@;
            out.push(c);
            assert(out@ + strip_from(rest.drop_first(), c == '\n') =~= before + (seq![c] + strip_from(rest.drop_first(), c == '\n')));
            at_start = c == '\n';
            i = i + 1;
        }
    }
    assert(s@.subrange(i as int, s@.len() as int) =~= Seq::<char>::empty());
    string_of(out.as_slice())
}

} // verus!
