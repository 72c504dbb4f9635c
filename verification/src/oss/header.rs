//! Canonical header entries and the canonical header block of a signed
//! request.
use vstd::prelude::*;
use vstd::string::*;
use crate::oss::utils::canonical_string;
use crate::text::{
    concatenated, is_ws, joined, lemma_trim_idempotent, lemma_trimmed_fixed, lemma_trimmed_shape,
    lowercase_of, trim_str, trimmed,
};

verus! {

/// One header line: a canonical name and a trimmed value.
pub struct HeaderEntry {
    pub name: String,
    pub value: String,
}

/// The values trimmed one by one and joined with `,`.
pub open spec fn joined_values(values: Seq<Seq<char>>) -> Seq<char> {
    joined(values.map_values(|v: Seq<char>| trimmed(v)), ","@)
}

/// The views of a sequence of string slices.
pub open spec fn str_views(values: Seq<&str>) -> Seq<Seq<char>> {
    values.map_values(|v: &str| v@)
}

impl HeaderEntry {
    /// The line `name:value` and a line feed.
    pub open spec fn line(self) -> Seq<char> {
        self.name@ + ":"@ + self.value@ + "\n"@
    }

    /// The entry for `name` with the single value `value`.
    pub fn new(name: &str, value: &str) -> (r: HeaderEntry)
        ensures
            r.name@ == lowercase_of(trimmed(name@)),
            r.value@ == trimmed(value@),
    {
        Self::with_value(name, value)
    }

    /// The entry for `name` whose value lists `values`, each trimmed,
    /// separated by `,`.
    pub fn with_values(name: &str, values: &[&str]) -> (r: HeaderEntry)
        ensures
            r.name@ == lowercase_of(trimmed(name@)),
            r.value@ == trimmed(joined_values(str_views(values@))),
    {
        let ghost parts = str_views(values@).map_values(|v: Seq<char>| trimmed(v));
        let mut acc = String::new();
        let n = values.len();
        let mut i: usize = 0;
        while i < n
            invariant
                i <= n == values@.len(),
                parts == str_views(values@).map_values(|v: Seq<char>| trimmed(v)),
                acc@ == joined(parts.take(i as int), ","@),
            decreases n - i,
        {
            let t = trim_str(values[i]);
            assert(parts[i as int] == t@);
            if i > 0 {
                acc.append(",");
            }
            acc.append(t.as_str());
            assert(parts.take(i + 1).drop_last() =~= parts.take(i as int));
            i = i + 1;
        }
        assert(parts.take(n as int) =~= parts);
        HeaderEntry { name: canonical_string(name), value: trim_str(acc.as_str()) }
    }

    /// The entry for `name` with the single value `value`.
    pub fn with_value(name: &str, value: &str) -> (r: HeaderEntry)
        ensures
            r.name@ == lowercase_of(trimmed(name@)),
            r.value@ == trimmed(value@),
    {
        HeaderEntry { name: canonical_string(name), value: trim_str(value) }
    }

    /// The header line `name:value\n`.
    pub fn format(&self) -> (r: String)
        ensures
            r@ == self.line(),
    {
        let mut r = String::from_str(self.name.as_str());
        r.append(":");
        r.append(self.value.as_str());
        r.append("\n");
        r
    }
}

/// Neither empty nor starting or ending with whitespace, or empty.
pub open spec fn ws_free_ends(s: Seq<char>) -> bool {
    s.len() == 0 || (!is_ws(s[0]) && !is_ws(s.last()))
}

proof fn lemma_joined_ws_free_ends(parts: Seq<Seq<char>>)
    requires
        forall|i: int| 0 <= i < parts.len() ==> ws_free_ends(#[trigger] parts[i]),
    ensures
        ws_free_ends(joined(parts, ","@)),
    decreases parts.len(),
{
    reveal_strlit(",");
    if parts.len() >= 2 {
        let front = parts.drop_last();
        assert forall|i: int| 0 <= i < front.len() implies ws_free_ends(#[trigger] front[i]) by {
            assert(front[i] == parts[i]);
        }
        lemma_joined_ws_free_ends(front);
        let j = joined(front, ","@);
        let l = parts.last();
        assert(parts[parts.len() - 1] == l);
        let all = j + ","@ + l;
        if j.len() > 0 {
            assert(all[0] == j[0]);
        } else {
            assert(all[0] == ","@[0]);
        }
        if l.len() > 0 {
            assert(all.last() == l.last());
        } else {
            assert(all.last() == ","@[0]);
        }
    } else if parts.len() == 1 {
        assert(ws_free_ends(parts[0]));
    }
}

/// The value that `with_values` builds is already trimmed: the trimmed
/// values joined with `,` neither start nor end with whitespace, so the
/// final trim changes nothing.
pub proof fn lemma_joined_values_trimmed(values: Seq<Seq<char>>)
    ensures
        trimmed(joined_values(values)) == joined_values(values),
{
    let parts = values.map_values(|v: Seq<char>| trimmed(v));
    assert forall|i: int| 0 <= i < parts.len() implies ws_free_ends(#[trigger] parts[i]) by {
        lemma_trimmed_shape(values[i]);
    }
    lemma_joined_ws_free_ends(parts);
    lemma_trimmed_fixed(joined_values(values));
}

/// A header with one value listed through `with_values` has the value that
/// `with_value` gives it.
pub proof fn lemma_single_value(value: Seq<char>)
    ensures
        trimmed(joined_values(seq![value])) == trimmed(value),
{
    let parts = seq![value].map_values(|v: Seq<char>| trimmed(v));
    assert(parts.len() == 1 && parts[0] == trimmed(value));
    assert(joined(parts, ","@) == trimmed(value));
    lemma_trim_idempotent(value);
}

/// The headers that take part in a request signature, in signing order.
pub struct CanonicalHeaders {
    entries: Vec<HeaderEntry>,
}

impl View for CanonicalHeaders {
    type V = Seq<HeaderEntry>;

    closed spec fn view(&self) -> Seq<HeaderEntry> {
        self.entries@
    }
}

/// The header lines of the entries, one after the other.
pub open spec fn header_block(entries: Seq<HeaderEntry>) -> Seq<char> {
    concatenated(entries.map_values(|e: HeaderEntry| e.line()))
}

/// The names of the entries separated by `;`.
pub open spec fn signed_names(entries: Seq<HeaderEntry>) -> Seq<char> {
    joined(entries.map_values(|e: HeaderEntry| e.name@), ";"@)
}

impl CanonicalHeaders {
    /// The canonical headers made of `entries`, in that order.
    pub fn new(entries: Vec<HeaderEntry>) -> (r: CanonicalHeaders)
        ensures
            r@ == entries@,
    {
        CanonicalHeaders { entries }
    }

    /// The canonical header block: every entry's line, in order.
    pub fn format(&self) -> (r: String)
        ensures
            r@ == header_block(self@),
    {
        let ghost lines = self.entries@.map_values(|e: HeaderEntry| e.line());
        let mut acc = String::new();
        let n = self.entries.len();
        let mut i: usize = 0;
        while i < n
            invariant
                i <= n == self.entries@.len(),
                lines == self.entries@.map_values(|e: HeaderEntry| e.line()),
                acc@ == concatenated(lines.take(i as int)),
            decreases n - i,
        {
            let line = self.entries[i].format();
            acc.append(line.as_str());
            assert(lines.take(i + 1).drop_last() =~= lines.take(i as int));
            i = i + 1;
        }
        assert(lines.take(n as int) =~= lines);
        acc
    }

    /// The names of the signed headers separated by `;`.
    pub fn signed_headers(&self) -> (r: String)
        ensures
            r@ == signed_names(self@),
    {
        let ghost names = self.entries@.map_values(|e: HeaderEntry| e.name@);
        let mut acc = String::new();
        let n = self.entries.len();
        let mut i: usize = 0;
        while i < n
            invariant
                i <= n == self.entries@.len(),
                names == self.entries@.map_values(|e: HeaderEntry| e.name@),
                acc@ == joined(names.take(i as int), ";"@),
            decreases n - i,
        {
            if i > 0 {
                acc.append(";");
            }
            acc.append(self.entries[i].name.as_str());
            assert(names.take(i + 1).drop_last() =~= names.take(i as int));
            i = i + 1;
        }
        assert(names.take(n as int) =~= names);
        acc
    }
}

/// The actions of the security token service that a request can name.
pub enum Action {
    AssumeRole,
}

/// The headers of a request to the security token service.
#[allow(non_snake_case)]
pub struct RequestHeader {
    /// The endpoint host, such as `oss-us-west-1.aliyuncs.com`.
    host: String,
    /// The action, such as `AssumeRole`.
    x_acs_action: String,
    /// The API version, such as `2015-04-01`.
    x_acs_version: String,
    /// The request time in ISO-8601, such as `2018-01-01T12:00:00Z`.
    x_acs_date: String,
    /// The hex digest of the request payload.
    x_acs_content_sha256: String,
    /// A random value.
    x_acs_signature_nonce: Option<String>,
    /// The security token that `AssumeRole` handed out.
    x_acs_security_token: Option<String>,
    Authorization: String,
}

} // verus!
