//! Text predicates over sequences of characters, and their executable forms.

use vstd::prelude::*;

verus! {

/// `prefix` stands at the start of `text`.
pub open spec fn is_prefix(prefix: Seq<char>, text: Seq<char>) -> bool {
    prefix.len() <= text.len() && text.subrange(0, prefix.len() as int) == prefix
}

/// `needle` stands in `text` at position `at`.
pub open spec fn occurs_at(needle: Seq<char>, text: Seq<char>, at: int) -> bool {
    0 <= at && at + needle.len() <= text.len() && text.subrange(at, at + needle.len()) == needle
}

/// `needle` stands somewhere in `text`.
pub open spec fn is_substring(needle: Seq<char>, text: Seq<char>) -> bool {
    exists|at: int| occurs_at(needle, text, at)
}

/// The lowercase form of a text, as `str::to_lowercase` gives it: every
/// character replaced by its Unicode lowercase mapping.
pub uninterp spec fn lowercase_of(text: Seq<char>) -> Seq<char>;

/// What is left of a text once `str::trim` has taken the white space from
/// both ends.
pub uninterp spec fn trimmed(text: Seq<char>) -> Seq<char>;

/// Calls `str::to_lowercase`. Trusted: the result is the value that
/// [`lowercase_of`] names for these characters; nothing else is claimed of it.
#[verifier::external_body]
pub(crate) fn to_lowercase(text: &str) -> (lower: String)
    ensures
        lower@ == lowercase_of(text@),
{
    text.to_lowercase()
}

/// Calls `str::trim`. Trusted: the result is the value that [`trimmed`] names
/// for these characters; nothing else is claimed of it.
#[verifier::external_body]
pub(crate) fn trim<'a>(text: &'a str) -> (inner: &'a str)
    ensures
        inner@ == trimmed(text@),
{
    text.trim()
}

/// The characters of `s`, in order.
pub fn chars_of(s: &str) -> (chars: Vec<char>)
    ensures
        chars@ == s@,
{
    let mut chars: Vec<char> = Vec::new();
    for c in it: s.chars()
        invariant
            it.seq() == s@,
            chars@ == it.seq().take(it.index() as int),
    {
        chars.push(c);
    }
    chars
}

/// Whether `text` begins with `prefix`.
pub fn starts_with(text: &str, prefix: &str) -> (found: bool)
    ensures
        found == is_prefix(prefix@, text@),
{
    let text_chars = chars_of(text);
    let prefix_chars = chars_of(prefix);
    if prefix_chars.len() > text_chars.len() {
        return false;
    }
    match_at(&text_chars, &prefix_chars, 0)
}

/// Whether `needle` occurs in `text`.
pub fn contains(text: &str, needle: &str) -> (found: bool)
    ensures
        found == is_substring(needle@, text@),
{
    let text_chars = chars_of(text);
    let needle_chars = chars_of(needle);
    contains_chars(&text_chars, &needle_chars)
}

/// Whether `needle` occurs in `text`, both given by their characters.
pub fn contains_chars(text: &Vec<char>, needle: &Vec<char>) -> (found: bool)
    ensures
        found == is_substring(needle@, text@),
{
    if needle.len() > text.len() {
        return false;
    }
    if needle.len() == 0 {
        assert(text@.subrange(0, 0) =~= needle@);
        assert(occurs_at(needle@, text@, 0));
        return true;
    }
    let last: usize = text.len() - needle.len();
    let mut at: usize = 0;
    while at <= last
        invariant
            0 < needle.len() <= text.len(),
            last == text.len() - needle.len(),
            at <= last + 1,
            forall|p: int| 0 <= p < at ==> !occurs_at(needle@, text@, p),
        decreases last + 1 - at,
    {
        if match_at(text, needle, at) {
            return true;
        }
        at += 1;
    }
    false
}

/// Whether `needle` stands in `text` at position `at`.
fn match_at(text: &Vec<char>, needle: &Vec<char>, at: usize) -> (found: bool)
    requires
        at + needle.len() <= text.len(),
    ensures
        found == occurs_at(needle@, text@, at as int),
{
    let mut j: usize = 0;
    while j < needle.len()
        invariant
            at + needle.len() <= text.len(),
            j <= needle.len(),
            forall|k: int| 0 <= k < j ==> text@[at + k] == needle@[k],
        decreases needle.len() - j,
    {
        if text[at + j] != needle[j] {
            return false;
        }
        j += 1;
    }
    assert(text@.subrange(at as int, at + needle.len()) =~= needle@);
    true
}

} // verus!
