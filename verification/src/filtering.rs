//! The filter predicate deciding which options stay visible, and the default
//! predicate: case-insensitive substring match against the label.

use vstd::prelude::*;
use vstd::string::StrSliceExecFns;

verus! {

/// Holds when `pat` occurs in `text` starting at position `i`.
pub open spec fn is_substring_at(pat: Seq<char>, text: Seq<char>, i: int) -> bool {
    0 <= i && i + pat.len() <= text.len() && text.subrange(i, i + pat.len()) == pat
}

/// Holds when `pat` occurs somewhere in `text` (always, when `pat` is empty).
pub open spec fn is_substring(pat: Seq<char>, text: Seq<char>) -> bool {
    exists|i: int| is_substring_at(pat, text, i)
}

/// What `str::to_lowercase` returns for a given character sequence; the
/// result depends on the characters alone.
pub uninterp spec fn lower_of(s: Seq<char>) -> Seq<char>;

/// Relies on `str::to_lowercase`: the lowercase mapping of the input,
/// a function of the input characters alone.
#[verifier::external_body]
fn to_lowercase(s: &str) -> (r: String)
    ensures
        r@ == lower_of(s@),
{
    s.to_lowercase()
}

/// Reports whether `pat` occurs in `text` starting at position `i`.
fn matches_at(pat: &str, text: &str, i: usize) -> (r: bool)
    requires
        i + pat@.len() <= text@.len(),
    ensures
        r == is_substring_at(pat@, text@, i as int),
{
    let pat_len = pat.unicode_len();
    let text_len = text.unicode_len();
    let mut j: usize = 0;
    while j < pat_len
        invariant
            pat_len == pat@.len(),
            text_len == text@.len(),
            i + pat@.len() <= text@.len(),
            0 <= j <= pat_len,
            forall|k: int| 0 <= k < j ==> text@[i + k] == pat@[k],
        decreases pat_len - j,
    {
        if text.get_char(i + j) != pat.get_char(j) {
            assert(!is_substring_at(pat@, text@, i as int)) by {
                if text@.subrange(i as int, i + pat@.len()) == pat@ {
                    assert(text@.subrange(i as int, i + pat@.len())[j as int] == text@[i + j]);
                }
            }
            return false;
        }
        j = j + 1;
    }
    assert(text@.subrange(i as int, i + pat@.len()) =~= pat@);
    true
}

/// Reports whether `pat` occurs anywhere in `text`; an empty `pat` occurs in
/// every `text`.
pub fn contains_substring(pat: &str, text: &str) -> (r: bool)
    ensures
        r == is_substring(pat@, text@),
{
    let pat_len = pat.unicode_len();
    let text_len = text.unicode_len();
    if pat_len == 0 {
        assert(is_substring_at(pat@, text@, 0)) by {
            assert(text@.subrange(0, 0) =~= pat@);
        }
        return true;
    }
    if pat_len > text_len {
        assert(forall|i: int| !is_substring_at(pat@, text@, i));
        return false;
    }
    let last: usize = text_len - pat_len;
    let mut i: usize = 0;
    while i <= last
        invariant
            pat_len == pat@.len(),
            text_len == text@.len(),
            0 < pat_len <= text_len,
            last == text_len - pat_len,
            0 <= i <= last + 1,
            forall|k: int| 0 <= k < i ==> !is_substring_at(pat@, text@, k),
        decreases last + 1 - i,
    {
        if matches_at(pat, text, i) {
            return true;
        }
        i = i + 1;
    }
    assert(forall|k: int| k > last ==> !is_substring_at(pat@, text@, k));
    false
}

/// The filter predicate: decides, from the current filter text, an option's
/// label and its catalog index, whether the option stays visible. Supplied by
/// the caller; assumed total. `matches` must return exactly what the
/// implementation's own `spec_matches` states.
pub trait Filter {
    /// What the predicate holds of a filter text, a label and an index.
    spec fn spec_matches(&self, filter_value: Seq<char>, label: Seq<char>, idx: int) -> bool;

    /// Decides whether the option at `idx` with label `label` matches
    /// `filter_value`.
    fn matches(&self, filter_value: &str, label: &str, idx: usize) -> (r: bool)
        ensures
            r == self.spec_matches(filter_value@, label@, idx as int),
    ;
}

/// The default filter: the lowercase filter text must occur in the lowercase
/// label; the index is ignored.
pub struct DefaultFilter;

impl Filter for DefaultFilter {
    open spec fn spec_matches(&self, filter_value: Seq<char>, label: Seq<char>, idx: int) -> bool {
        is_substring(lower_of(filter_value), lower_of(label))
    }

    fn matches(&self, filter_value: &str, label: &str, idx: usize) -> (r: bool)
        ensures
            r == self.spec_matches(filter_value@, label@, idx as int),
    {
        let lowered_filter = to_lowercase(filter_value);
        let lowered_label = to_lowercase(label);
        contains_substring(lowered_filter.as_str(), lowered_label.as_str())
    }
}

} // verus!
