//! Text helpers: comparison, decimal rendering and normalization.

use vstd::prelude::*;
use vstd::string::*;
use vstd::utf8::*;

verus! {

/// Tells whether two strings hold the same characters.
pub fn str_equal(left: &str, right: &str) -> (same: bool)
    ensures
        same == (left@ == right@),
{
    let a = left.as_bytes();
    let b = right.as_bytes();
    if a.len() != b.len() {
        return false;
    }
    let mut i: usize = 0;
    while i < a.len()
        invariant
            a@ == left.spec_bytes(),
            b@ == right.spec_bytes(),
            a@.len() == b@.len(),
            i <= a@.len(),
            a@.subrange(0, i as int) == b@.subrange(0, i as int),
        decreases a@.len() - i,
    {
        if a[i] != b[i] {
            return false;
        }
        i += 1;
    }
    proof {
        // The encodings are equal, and equal encodings decode to equal
        // texts.
        assert(a@ == a@.subrange(0, i as int));
        assert(b@ == b@.subrange(0, i as int));
        encode_utf8_decode_utf8(left@);
        encode_utf8_decode_utf8(right@);
    }
    true
}

/// The character of one decimal digit.
pub open spec fn digit_char(digit: nat) -> char
    recommends
        digit < 10,
{
    "0123456789"@[digit as int]
}

/// A number in decimal notation, without sign or leading zeros.
pub open spec fn decimal(n: nat) -> Seq<char>
    decreases n,
{
    if n < 10 {
        seq![digit_char(n)]
    } else {
        decimal(n / 10).push(digit_char(n % 10))
    }
}

fn digit_text(digit: usize) -> (text: &'static str)
    requires
        digit < 10,
    ensures
        text@ == seq![digit_char(digit as nat)],
{
    proof {
        reveal_strlit("0123456789");
    }
    let text = "0123456789".substring_ascii(digit, digit + 1);
    text
}

/// Renders a count in decimal notation.
pub fn decimal_string(n: usize) -> (text: String)
    ensures
        text@ == decimal(n as nat),
    decreases n,
{
    if n < 10 {
        digit_text(n).to_owned()
    } else {
        let mut text = decimal_string(n / 10);
        text.append(digit_text(n % 10));
        text
    }
}

/// The lower-case form of a text under the Unicode case mapping that
/// `str::to_lowercase` applies.
pub uninterp spec fn lowercased(text: Seq<char>) -> Seq<char>;

/// A text without its leading and trailing white space, as `str::trim`
/// leaves it.
pub uninterp spec fn trimmed(text: Seq<char>) -> Seq<char>;

/// The key under which an availability phrase is looked up: the phrase in
/// lower case, without surrounding white space.
pub open spec fn normalized(raw: Seq<char>) -> Seq<char> {
    trimmed(lowercased(raw))
}

/// Calls `str::to_lowercase`. The result is assumed to be the Unicode
/// lower-case mapping of the argument, which is named by [`lowercased`];
/// nothing further is claimed about it.
#[verifier::external_body]
fn to_lowercase(text: &str) -> (lower: String)
    ensures
        lower@ == lowercased(text@),
{
    text.to_lowercase()
}

/// Calls `str::trim`. The result is assumed to be the argument without
/// leading and trailing Unicode white space, which is named by
/// [`trimmed`]; nothing further is claimed about it.
#[verifier::external_body]
fn trim(text: &str) -> (inner: &str)
    ensures
        inner@ == trimmed(text@),
{
    text.trim()
}

/// Normalizes an availability phrase for lookup: lower case, then without
/// surrounding white space.
pub fn normalize(raw: &str) -> (key: String)
    ensures
        key@ == normalized(raw@),
{
    let lower = to_lowercase(raw);
    trim(lower.as_str()).to_owned()
}

} // verus!
