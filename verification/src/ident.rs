//! Record identifiers: UUIDs held as `u128`, read from text and written
//! back as text by the `uuid` crate.

use vstd::prelude::*;
use vstd::string::*;
use vstd::arithmetic::div_mod::lemma_mod_breakdown;
use crate::error::{ApiError, RefField};

verus! {

/// The value of one hexadecimal digit, either case.
pub open spec fn hex_digit_value(c: char) -> Option<nat> {
    let n = c as u32;
    if 48 <= n <= 57 {
        Some((n - 48) as nat)
    } else if 97 <= n <= 102 {
        Some((n - 87) as nat)
    } else if 65 <= n <= 70 {
        Some((n - 55) as nat)
    } else {
        None
    }
}

pub open spec fn all_hex(s: Seq<char>) -> bool {
    forall|i: int| 0 <= i < s.len() ==> (#[trigger] hex_digit_value(s[i])) is Some
}

/// The number that a run of hexadecimal digits spells, most significant
/// digit first.
pub open spec fn hex_value(s: Seq<char>) -> nat
    decreases s.len(),
{
    if s.len() == 0 {
        0
    } else {
        hex_value(s.drop_last()) * 16 + hex_digit_value(s.last()).unwrap_or(0)
    }
}

/// 32 hexadecimal digits.
pub open spec fn simple_value(s: Seq<char>) -> Option<u128> {
    if s.len() == 32 && all_hex(s) {
        Some(hex_value(s) as u128)
    } else {
        None
    }
}

/// The 32 digits of a hyphenated form, without its four hyphens.
pub open spec fn dehyphenate(s: Seq<char>) -> Seq<char> {
    s.subrange(0, 8) + s.subrange(9, 13) + s.subrange(14, 18) + s.subrange(19, 23) + s.subrange(
        24,
        36,
    )
}

/// `xxxxxxxx-xxxx-xxxx-xxxx-xxxxxxxxxxxx`.
pub open spec fn hyphenated_value(s: Seq<char>) -> Option<u128> {
    if s.len() == 36 && s[8] == '-' && s[13] == '-' && s[18] == '-' && s[23] == '-' {
        simple_value(dehyphenate(s))
    } else {
        None
    }
}

pub open spec fn ascii_lower(c: char) -> char {
    if 'A' <= c <= 'Z' {
        ((c as u32) + 32) as char
    } else {
        c
    }
}

/// `urn:uuid:` in any mix of ASCII case.
pub open spec fn is_urn_prefix(p: Seq<char>) -> bool {
    &&& p.len() == 9
    &&& ascii_lower(p[0]) == 'u' && ascii_lower(p[1]) == 'r' && ascii_lower(p[2]) == 'n'
    &&& p[3] == ':'
    &&& ascii_lower(p[4]) == 'u' && ascii_lower(p[5]) == 'u' && ascii_lower(p[6]) == 'i'
    &&& ascii_lower(p[7]) == 'd'
    &&& p[8] == ':'
}

/// The UUID that a text denotes, if it denotes one: 32 digits, the
/// hyphenated form, the hyphenated form in braces, or it behind `urn:uuid:`.
pub open spec fn uuid_of_text(s: Seq<char>) -> Option<u128> {
    if s.len() == 32 {
        simple_value(s)
    } else if s.len() == 36 {
        hyphenated_value(s)
    } else if s.len() == 38 && s[0] == '{' && s[37] == '}' {
        hyphenated_value(s.subrange(1, 37))
    } else if s.len() == 45 && is_urn_prefix(s.subrange(0, 9)) {
        hyphenated_value(s.subrange(9, 45))
    } else {
        None
    }
}

/// A lower-case hexadecimal digit.
pub open spec fn hex_char(d: nat) -> char {
    if d < 10 {
        (d + 48) as char
    } else {
        (d + 87) as char
    }
}

/// The last `n` hexadecimal digits of `v`, most significant first.
pub open spec fn hex_text(v: nat, n: nat) -> Seq<char>
    decreases n,
{
    if n == 0 {
        Seq::empty()
    } else {
        hex_text(v / 16, (n - 1) as nat).push(hex_char(v % 16))
    }
}

pub open spec fn hyphenate(t: Seq<char>) -> Seq<char> {
    t.subrange(0, 8) + seq!['-'] + t.subrange(8, 12) + seq!['-'] + t.subrange(12, 16) + seq!['-']
        + t.subrange(16, 20) + seq!['-'] + t.subrange(20, 32)
}

/// The canonical text of a UUID: lower-case, hyphenated.
pub open spec fn id_text(v: u128) -> Seq<char> {
    hyphenate(hex_text(v as nat, 32))
}

/// `16` to the power `n`.
pub open spec fn radix(n: nat) -> nat
    decreases n,
{
    if n == 0 {
        1
    } else {
        16 * radix((n - 1) as nat)
    }
}

proof fn lemma_hex_char(d: nat)
    requires
        d < 16,
    ensures
        hex_digit_value(hex_char(d)) == Some(d),
{
}

proof fn lemma_hex_text(v: nat, n: nat)
    ensures
        hex_text(v, n).len() == n,
        all_hex(hex_text(v, n)),
        hex_value(hex_text(v, n)) == v % radix(n),
    decreases n,
{
    if n > 0 {
        let m = (n - 1) as nat;
        lemma_hex_text(v / 16, m);
        lemma_hex_char(v % 16);
        let t = hex_text(v, n);
        let p = hex_text(v / 16, m);
        assert(t.drop_last() =~= p);
        assert forall|i: int| 0 <= i < t.len() implies (#[trigger] hex_digit_value(t[i])) is Some by {
            if i < m {
                assert(t[i] == p[i]);
            }
        }
        assert(radix(m) > 0) by {
            lemma_radix_positive(m);
        }
        lemma_mod_breakdown(v as int, 16, radix(m) as int);
    }
}

proof fn lemma_radix_positive(n: nat)
    ensures
        radix(n) > 0,
    decreases n,
{
    if n > 0 {
        lemma_radix_positive((n - 1) as nat);
    }
}

/// The canonical text of an identifier reads back as that identifier.
pub proof fn lemma_id_text_parses(v: u128)
    ensures
        uuid_of_text(id_text(v)) == Some(v),
{
    let t = hex_text(v as nat, 32);
    lemma_hex_text(v as nat, 32);
    assert(radix(32) == 0x1_0000_0000_0000_0000_0000_0000_0000_0000nat) by {
        reveal_with_fuel(radix, 33);
    }
    let s = id_text(v);
    assert(s.len() == 36);
    assert(s[8] == '-' && s[13] == '-' && s[18] == '-' && s[23] == '-');
    assert(dehyphenate(s) =~= t);
    assert(hex_value(t) == v);
}

/// `Uuid::parse_str`: accepts exactly the four textual forms that
/// `uuid_of_text` describes (simple, hyphenated, braced, URN), hex digits in
/// either case, and yields the 128-bit value they spell.
#[verifier::external_body]
fn uuid_parse(s: &str) -> (r: Option<u128>)
    ensures
        r == uuid_of_text(s@),
{
    match uuid::Uuid::parse_str(s) {
        Ok(u) => Some(u.as_u128()),
        Err(_) => None,
    }
}

/// `Uuid::to_string` (through `Display`, i.e. `LowerHex` of the hyphenated
/// form): 36 characters, lower-case digits, hyphens after the 8th, 12th,
/// 16th and 20th digit.
#[verifier::external_body]
fn uuid_format(v: u128) -> (r: String)
    ensures
        r@ == id_text(v),
{
    uuid::Uuid::from_u128(v).to_string()
}

/// `Uuid::new_v4`: random bits, except that the version nibble is 4 and the
/// two variant bits are `10`.
#[verifier::external_body]
fn uuid_new_v4() -> (r: u128)
    ensures
        (r >> 76u128) & 0xfu128 == 4,
        (r >> 62u128) & 3u128 == 2,
{
    uuid::Uuid::new_v4().as_u128()
}

/// The version nibble of a random UUID is 4, its variant bits `10`.
pub open spec fn is_fresh_id(v: u128) -> bool {
    (v >> 76u128) & 0xfu128 == 4 && (v >> 62u128) & 3u128 == 2
}

/// A fresh random (version 4) identifier.
pub fn fresh_id() -> (r: u128)
    ensures
        is_fresh_id(r),
{
    uuid_new_v4()
}

/// The canonical text of an identifier.
pub fn id_string(v: u128) -> (r: String)
    ensures
        r@ == id_text(v),
{
    uuid_format(v)
}

/// An optional identifier as optional text.
pub fn opt_id_string(v: Option<u128>) -> (r: Option<String>)
    ensures
        opt_id_view(r) == opt_id_text(v),
{
    match v {
        Some(u) => Some(id_string(u)),
        None => None,
    }
}

pub open spec fn opt_id_text(v: Option<u128>) -> Option<Seq<char>> {
    match v {
        Some(u) => Some(id_text(u)),
        None => None,
    }
}

pub open spec fn opt_id_view(v: Option<String>) -> Option<Seq<char>> {
    match v {
        Some(s) => Some(s@),
        None => None,
    }
}

/// The identifier in a request path; `InvalidUuid` when it is not one.
pub fn parse_path_id(path: &str) -> (r: Result<u128, ApiError>)
    ensures
        match uuid_of_text(path@) {
            Some(v) => r == Ok::<u128, ApiError>(v),
            None => r matches Err(ApiError::InvalidUuid),
        },
{
    match uuid_parse(path) {
        Some(v) => Ok(v),
        None => Err(ApiError::InvalidUuid),
    }
}

/// An identifier in a named field of a body or a query.
pub fn parse_ref(text: &str, field: RefField) -> (r: Result<u128, ApiError>)
    ensures
        match uuid_of_text(text@) {
            Some(v) => r == Ok::<u128, ApiError>(v),
            None => r matches Err(ApiError::InvalidRef(f)) && f == field,
        },
{
    match uuid_parse(text) {
        Some(v) => Ok(v),
        None => Err(ApiError::InvalidRef(field)),
    }
}

/// How an optional reference of a new record resolves: absent or empty
/// means none; anything else must be a UUID.
pub open spec fn new_ref_value(text: Option<Seq<char>>) -> Option<Option<u128>> {
    match text {
        Some(t) => if t.len() == 0 {
            Some(None)
        } else {
            match uuid_of_text(t) {
                Some(v) => Some(Some(v)),
                None => None,
            }
        },
        None => Some(None),
    }
}

/// Reference of a new record: `None` and `""` give no reference.
pub fn resolve_new_ref(text: &Option<String>, field: RefField) -> (r: Result<
    Option<u128>,
    ApiError,
>)
    ensures
        match new_ref_value(crate::text::opt_view(*text)) {
            Some(v) => r == Ok::<Option<u128>, ApiError>(v),
            None => r matches Err(ApiError::InvalidRef(f)) && f == field,
        },
{
    match text {
        Some(s) => {
            if s.as_str().is_empty() {
                Ok(None)
            } else {
                match parse_ref(s.as_str(), field) {
                    Ok(v) => Ok(Some(v)),
                    Err(e) => Err(e),
                }
            }
        },
        None => Ok(None),
    }
}

/// How an optional identifier of a list query resolves: absent sets no
/// condition; anything given must be a UUID.
pub open spec fn filter_id_value(text: Option<Seq<char>>) -> Option<Option<u128>> {
    match text {
        None => Some(None),
        Some(t) => match uuid_of_text(t) {
            Some(v) => Some(Some(v)),
            None => None,
        },
    }
}

/// Identifier condition of a list query, refused when it is not a UUID.
pub fn resolve_filter_id(text: &Option<String>, field: RefField) -> (r: Result<
    Option<u128>,
    ApiError,
>)
    ensures
        match filter_id_value(crate::text::opt_view(*text)) {
            Some(v) => r == Ok::<Option<u128>, ApiError>(v),
            None => r matches Err(ApiError::InvalidRef(f)) && f == field,
        },
{
    match text {
        None => Ok(None),
        Some(s) => match parse_ref(s.as_str(), field) {
            Ok(v) => Ok(Some(v)),
            Err(e) => Err(e),
        },
    }
}

/// What a patch does to an optional reference.
#[derive(Clone, Copy, Debug, PartialEq, Eq, Structural)]
pub enum RefChange {
    /// The field was absent: keep the current reference.
    Keep,
    /// The field was `""`: drop the reference.
    Clear,
    /// The field named a record.
    Assign(u128),
}

pub open spec fn ref_change_of(text: Option<Seq<char>>) -> Option<RefChange> {
    match text {
        None => Some(RefChange::Keep),
        Some(t) => if t.len() == 0 {
            Some(RefChange::Clear)
        } else {
            match uuid_of_text(t) {
                Some(v) => Some(RefChange::Assign(v)),
                None => None,
            }
        },
    }
}

impl RefChange {
    pub open spec fn applied(self, current: Option<u128>) -> Option<u128> {
        match self {
            RefChange::Keep => current,
            RefChange::Clear => None,
            RefChange::Assign(v) => Some(v),
        }
    }

    /// The reference after the change.
    pub fn apply(&self, current: Option<u128>) -> (r: Option<u128>)
        ensures
            r == self.applied(current),
    {
        match self {
            RefChange::Keep => current,
            RefChange::Clear => None,
            RefChange::Assign(v) => Some(*v),
        }
    }
}

/// Reference field of a patch: absent keeps, `""` clears, a UUID sets.
pub fn resolve_ref_change(text: &Option<String>, field: RefField) -> (r: Result<
    RefChange,
    ApiError,
>)
    ensures
        match ref_change_of(crate::text::opt_view(*text)) {
            Some(c) => r == Ok::<RefChange, ApiError>(c),
            None => r matches Err(ApiError::InvalidRef(f)) && f == field,
        },
{
    match text {
        None => Ok(RefChange::Keep),
        Some(s) => {
            if s.as_str().is_empty() {
                Ok(RefChange::Clear)
            } else {
                match parse_ref(s.as_str(), field) {
                    Ok(v) => Ok(RefChange::Assign(v)),
                    Err(e) => Err(e),
                }
            }
        },
    }
}


/// How a reference field reads. In a new record, absent or empty means no
/// reference and a UUID names a record. In a patch, absent keeps the
/// reference, empty removes it and a UUID replaces it. In a list query,
/// absent sets no condition and a UUID selects by it. Anything else is
/// refused everywhere.
pub proof fn lemma_reference_texts(t: Seq<char>)
    ensures
        new_ref_value(None) == Some(None::<u128>),
        ref_change_of(None) == Some(RefChange::Keep),
        filter_id_value(None) == Some(None::<u128>),
        t.len() == 0 ==> new_ref_value(Some(t)) == Some(None::<u128>),
        t.len() == 0 ==> ref_change_of(Some(t)) == Some(RefChange::Clear),
        t.len() > 0 ==> match uuid_of_text(t) {
            Some(v) => new_ref_value(Some(t)) == Some(Some(v)) && ref_change_of(Some(t)) == Some(
                RefChange::Assign(v),
            ),
            None => new_ref_value(Some(t)) is None && ref_change_of(Some(t)) is None,
        },
        match uuid_of_text(t) {
            Some(v) => filter_id_value(Some(t)) == Some(Some(v)),
            None => filter_id_value(Some(t)) is None,
        },
{
}

/// A reference change does what it says to the current reference.
pub proof fn lemma_ref_change_applied(current: Option<u128>, v: u128)
    ensures
        RefChange::Keep.applied(current) == current,
        RefChange::Clear.applied(current) == None::<u128>,
        RefChange::Assign(v).applied(current) == Some(v),
{
}

} // verus!
