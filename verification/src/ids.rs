//! Identifiers and timestamps: UUIDs held as 128-bit integers, their text
//! form, fresh random identifiers, and the creation-time stamp.

use vstd::prelude::*;
use crate::text::{chars_to_string, decimal, push_decimal};

verus! {

/// The lower-case hexadecimal digit for a nibble.
pub open spec fn hex_digit(n: nat) -> char {
    if n < 10 {
        crate::text::digit_char(n)
    } else if n == 10 { 'a' } else if n == 11 { 'b' } else if n == 12 { 'c' }
    else if n == 13 { 'd' } else if n == 14 { 'e' } else { 'f' }
}

/// The last `k` hexadecimal digits of `v`, most significant first.
pub open spec fn hex_digits(v: nat, k: nat) -> Seq<char>
    decreases k,
{
    if k == 0 {
        seq![]
    } else {
        hex_digits(v / 16, (k - 1) as nat).push(hex_digit(v % 16))
    }
}

/// The hyphenated lower-case text of a UUID (`8-4-4-4-12` hex digits), the
/// form in which `uuid::Uuid` displays itself.
pub open spec fn uuid_text(v: u128) -> Seq<char> {
    let h = hex_digits(v as nat, 32);
    h.subrange(0, 8) + seq!['-'] + h.subrange(8, 12) + seq!['-'] + h.subrange(12, 16) + seq!['-']
        + h.subrange(16, 20) + seq!['-'] + h.subrange(20, 32)
}

/// What `uuid::Uuid::parse_str` makes of a text: the UUID's value, or `None`
/// when the text is not a UUID in one of its accepted forms.
pub uninterp spec fn uuid_parse(s: Seq<char>) -> Option<u128>;

/// The text of the UUID with value `id` (`uuid::Uuid::from_u128` then its
/// `Display`). Trusted: hyphenated lower-case hex, as `uuid_text` states.
#[verifier::external_body]
pub(crate) fn uuid_string(id: u128) -> (res: String)
    ensures
        res@ == uuid_text(id),
{
    uuid::Uuid::from_u128(id).to_string()
}

/// Parses a UUID text with `uuid::Uuid::parse_str`. Trusted: the result is
/// `uuid_parse` of the text, and the hyphenated form of any value parses back
/// to that value (the crate documents that every form it generates parses).
#[verifier::external_body]
pub(crate) fn parse_uuid(s: &str) -> (res: Option<u128>)
    ensures
        res == uuid_parse(s@),
        forall|v: u128| s@ == uuid_text(v) ==> res == Some(v),
{
    match uuid::Uuid::parse_str(s) {
        Ok(u) => Some(u.as_u128()),
        Err(_) => None,
    }
}

/// The value of a version-4 UUID: version nibble 4, variant bits `10`.
pub open spec fn is_v4_id(v: u128) -> bool {
    (v >> 76u128) & 0xfu128 == 4 && (v >> 62u128) & 0x3u128 == 2
}

/// A fresh random version-4 UUID (`uuid::Uuid::new_v4`), as its value.
/// Trusted: the version nibble is 4 and the variant bits are `10`; the rest
/// is random and nothing more is stated of it.
#[verifier::external_body]
pub(crate) fn fresh_id() -> (res: u128)
    ensures
        is_v4_id(res),
{
    uuid::Uuid::new_v4().as_u128()
}

/// Seconds since the Unix epoch on the system clock
/// (`std::time::SystemTime::now`, then `duration_since` the epoch; a clock
/// set before the epoch reads as 0). Nothing is stated of the value.
#[verifier::external_body]
fn unix_now_secs() -> (res: u64) {
    match std::time::SystemTime::now().duration_since(std::time::UNIX_EPOCH) {
        Ok(d) => d.as_secs(),
        Err(_) => 0,
    }
}

/// The current time as decimal seconds since the Unix epoch.
pub fn chrono_now() -> (res: String)
    ensures
        exists|secs: u64| res@ == decimal(secs as nat),
{
    let secs = unix_now_secs();
    let mut v: Vec<char> = Vec::new();
    push_decimal(&mut v, secs);
    assert(v@ =~= decimal(secs as nat));
    chars_to_string(v.as_slice())
}

proof fn lemma_hex_digits_no_slash(v: nat, k: nat)
    ensures
        hex_digits(v, k).len() == k,
        forall|i: int| 0 <= i < k ==> #[trigger] hex_digits(v, k)[i] != '/',
    decreases k,
{
    if k > 0 {
        lemma_hex_digits_no_slash(v / 16, (k - 1) as nat);
        let d = hex_digits(v / 16, (k - 1) as nat);
        assert(hex_digit(v % 16) != '/');
        assert forall|i: int| 0 <= i < k implies #[trigger] hex_digits(v, k)[i] != '/' by {
            if i < k - 1 {
                assert(hex_digits(v, k)[i] == d[i]);
            }
        }
    }
}

/// The text of a UUID is a single path component: 36 characters, none of
/// them `/`.
pub proof fn lemma_uuid_text_is_name(v: u128)
    ensures
        crate::path::is_name(uuid_text(v)),
        uuid_text(v).len() == 36,
{
    let h = hex_digits(v as nat, 32);
    lemma_hex_digits_no_slash(v as nat, 32);
    let t = uuid_text(v);
    assert(t.len() == 36);
    assert(!t.contains('/')) by {
        if t.contains('/') {
            let j = choose|j: int| 0 <= j < t.len() && t[j] == '/';
            if j < 8 {
                assert(t[j] == h[j]);
            } else if j == 8 || j == 13 || j == 18 || j == 23 {
                assert(t[j] == '-');
            } else if j < 13 {
                assert(t[j] == h[j - 1]);
            } else if j < 18 {
                assert(t[j] == h[j - 2]);
            } else if j < 23 {
                assert(t[j] == h[j - 3]);
            } else {
                assert(t[j] == h[j - 4]);
            }
        }
    }
}

} // verus!
