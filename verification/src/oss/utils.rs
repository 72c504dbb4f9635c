//! Canonical forms of header names and values.
use vstd::prelude::*;
use std::borrow::Cow;
use crate::text::{lowercase_of, to_lowercase, trim_str, trimmed};

verus! {

/// The canonical text of a header name: trimmed, then lower-cased.
pub open spec fn canonical_text(s: Seq<char>) -> Seq<char> {
    lowercase_of(trimmed(s))
}

/// Whether `r` is what rewriting `entry` into `target` gives: `entry`
/// itself, in whichever form it came, when it already equals `target`;
/// otherwise an owned copy of `target`.
pub open spec fn rewritten<'a>(entry: Cow<'a, str>, target: Seq<char>, r: Cow<'a, str>) -> bool {
    &&& r@ == target
    &&& entry@ == target ==> r == entry
    &&& entry@ != target ==> r is Owned
}

/// The text of `entry`.
fn text_of<'a, 'b>(entry: &'b Cow<'a, str>) -> (r: &'b str)
    ensures
        r@ == entry@,
{
    match entry {
        Cow::Borrowed(s) => s,
        Cow::Owned(o) => o.as_str(),
    }
}

/// `entry` when its text is `target`, else `target` owned.
fn keep_or_replace<'a>(entry: Cow<'a, str>, target: String) -> (r: Cow<'a, str>)
    ensures
        rewritten(entry, target@, r),
{
    let same = String::from_str(text_of(&entry)) == target;
    if same {
        entry
    } else {
        Cow::Owned(target)
    }
}

/// The canonical text of the header name `entry`, as a new string.
pub(crate) fn canonical_string(entry: &str) -> (r: String)
    ensures
        r@ == canonical_text(entry@),
{
    let t = trim_str(entry);
    to_lowercase(t.as_str())
}

/// A header name in canonical form: trimmed, then lower-cased. A name
/// already in that form comes back as it was given, borrowed or owned;
/// otherwise the canonical text comes back owned.
pub fn canonical<'a>(entry: Cow<'a, str>) -> (r: Cow<'a, str>)
    ensures
        rewritten(entry, canonical_text(entry@), r),
{
    let c = canonical_string(text_of(&entry));
    keep_or_replace(entry, c)
}

/// A header value with leading and trailing whitespace removed. A value
/// already trimmed comes back as it was given, borrowed or owned; otherwise
/// the trimmed text comes back owned.
pub fn trim<'a>(entry: Cow<'a, str>) -> (r: Cow<'a, str>)
    ensures
        rewritten(entry, trimmed(entry@), r),
{
    let t = trim_str(text_of(&entry));
    keep_or_replace(entry, t)
}

/// Trimming a trimmed value gives it back as it was: for `y = trim(x)`,
/// `trim(y)` is `y` itself, in the same form.
pub proof fn lemma_trim_twice<'a>(x: Cow<'a, str>, y: Cow<'a, str>, z: Cow<'a, str>)
    requires
        rewritten(x, trimmed(x@), y),
        rewritten(y, trimmed(y@), z),
    ensures
        z == y,
{
    crate::text::lemma_trim_idempotent(x@);
}

} // verus!
