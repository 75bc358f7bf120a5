//! Text handling over `Seq<char>`: whitespace trimming, substring search and
//! lower-casing, each backed by the corresponding `str` method of std.

use vstd::prelude::*;
use vstd::string::*;

verus! {

/// Unicode `White_Space`, the set that `char::is_whitespace` accepts.
pub open spec fn is_ws(c: char) -> bool {
    let n = c as u32;
    ||| n == 0x20
    ||| 0x09 <= n <= 0x0d
    ||| n == 0x85
    ||| n == 0xa0
    ||| n == 0x1680
    ||| 0x2000 <= n <= 0x200a
    ||| n == 0x2028
    ||| n == 0x2029
    ||| n == 0x202f
    ||| n == 0x205f
    ||| n == 0x3000
}

/// `s` without its leading whitespace.
pub open spec fn trim_start(s: Seq<char>) -> Seq<char>
    decreases s.len(),
{
    if s.len() > 0 && is_ws(s[0]) {
        trim_start(s.drop_first())
    } else {
        s
    }
}

/// `s` without its trailing whitespace.
pub open spec fn trim_end(s: Seq<char>) -> Seq<char>
    decreases s.len(),
{
    if s.len() > 0 && is_ws(s.last()) {
        trim_end(s.drop_last())
    } else {
        s
    }
}

/// `s` without leading and trailing whitespace.
pub open spec fn trimmed(s: Seq<char>) -> Seq<char> {
    trim_end(trim_start(s))
}

/// `p` occurs in `s` as a contiguous run.
pub open spec fn occurs_in(p: Seq<char>, s: Seq<char>) -> bool {
    exists|i: int| 0 <= i && i + p.len() <= s.len() && #[trigger] s.subrange(i, i + p.len()) == p
}

/// What `str::to_lowercase` returns for a string: the full Unicode
/// lower-case mapping, character by character with context for final sigma.
pub uninterp spec fn lowercase_of(s: Seq<char>) -> Seq<char>;

/// `str::trim`: the slice between the first and the last character that is
/// not `char::is_whitespace`.
#[verifier::external_body]
fn std_trim(s: &str) -> (r: &str)
    ensures
        r@ == trimmed(s@),
{
    s.trim()
}

/// `str::contains` with a string pattern: whether the pattern occurs as a
/// substring.
#[verifier::external_body]
fn std_contains(s: &str, pattern: &str) -> (r: bool)
    ensures
        r == occurs_in(pattern@, s@),
{
    s.contains(pattern)
}

/// `str::to_lowercase`; the result is named, not described.
#[verifier::external_body]
fn std_to_lowercase(s: &str) -> (r: String)
    ensures
        r@ == lowercase_of(s@),
{
    s.to_lowercase()
}

/// A copy of `s` with leading and trailing whitespace removed.
pub fn trim_owned(s: &str) -> (r: String)
    ensures
        r@ == trimmed(s@),
{
    String::from_str(std_trim(s))
}

/// Whether `pattern` occurs in `s`.
pub fn has_substring(s: &str, pattern: &str) -> (r: bool)
    ensures
        r == occurs_in(pattern@, s@),
{
    std_contains(s, pattern)
}

/// The lower-case form of `s`.
pub fn to_lower(s: &str) -> (r: String)
    ensures
        r@ == lowercase_of(s@),
{
    std_to_lowercase(s)
}

/// The value that a patch leaves in a text field: the new text if one was
/// sent, else the current one.
pub open spec fn patched(new: Option<Seq<char>>, current: Seq<char>) -> Seq<char> {
    match new {
        Some(t) => t,
        None => current,
    }
}

pub open spec fn opt_view(o: Option<String>) -> Option<Seq<char>> {
    match o {
        Some(s) => Some(s@),
        None => None,
    }
}

/// `new.unwrap_or(current)`, trimmed.
pub fn patch_trimmed(new: &Option<String>, current: &String) -> (r: String)
    ensures
        r@ == trimmed(patched(opt_view(*new), current@)),
{
    match new {
        Some(t) => trim_owned(t.as_str()),
        None => trim_owned(current.as_str()),
    }
}

/// `new.unwrap_or(current)`, as it stands.
pub fn patch_kept(new: &Option<String>, current: &String) -> (r: String)
    ensures
        r@ == patched(opt_view(*new), current@),
{
    match new {
        Some(t) => t.clone(),
        None => current.clone(),
    }
}

/// Trimming twice trims no more than trimming once.
pub proof fn lemma_trim_idempotent(s: Seq<char>)
    ensures
        trimmed(trimmed(s)) == trimmed(s),
{
    lemma_trim_start_fixed(s);
    lemma_trim_end_keeps_start(trim_start(s));
    lemma_trim_end_fixed(trim_start(s));
    let t = trimmed(s);
    assert(trim_start(t) == t);
    assert(trim_end(t) == t);
}

proof fn lemma_trim_start_fixed(s: Seq<char>)
    ensures
        trim_start(trim_start(s)) == trim_start(s),
        trim_start(s).len() > 0 ==> !is_ws(trim_start(s)[0]),
    decreases s.len(),
{
    if s.len() > 0 && is_ws(s[0]) {
        lemma_trim_start_fixed(s.drop_first());
    }
}

proof fn lemma_trim_end_fixed(s: Seq<char>)
    ensures
        trim_end(trim_end(s)) == trim_end(s),
        trim_end(s).len() > 0 ==> !is_ws(trim_end(s).last()),
    decreases s.len(),
{
    if s.len() > 0 && is_ws(s.last()) {
        lemma_trim_end_fixed(s.drop_last());
    }
}

/// Removing trailing whitespace from a string that starts with a
/// non-whitespace character leaves that first character in place.
proof fn lemma_trim_end_keeps_start(s: Seq<char>)
    requires
        s.len() > 0 ==> !is_ws(s[0]),
    ensures
        trim_end(s).len() > 0 ==> !is_ws(trim_end(s)[0]),
        trim_end(s).len() > 0 ==> trim_end(s)[0] == s[0],
        trim_start(trim_end(s)) == trim_end(s),
    decreases s.len(),
{
    if s.len() > 0 && is_ws(s.last()) {
        let d = s.drop_last();
        if d.len() > 0 {
            assert(d[0] == s[0]);
        }
        lemma_trim_end_keeps_start(d);
    }
}

} // verus!
