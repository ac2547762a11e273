//! Percent-decoding.

use vstd::prelude::*;
use crate::text::{chars_of};

verus! {

/// The value of a hexadecimal digit.
pub open spec fn hex_value(c: char) -> Option<int> {
    if '0' <= c <= '9' {
        Some(c as int - '0' as int)
    } else if 'a' <= c <= 'f' {
        Some(c as int - 'a' as int + 10)
    } else if 'A' <= c <= 'F' {
        Some(c as int - 'A' as int + 10)
    } else {
        None
    }
}

/// The value of the two characters that follow a `%`: two hexadecimal
/// digits, or a `+` and one hexadecimal digit.
pub open spec fn escape_value(left: char, right: char) -> Option<int> {
    if left == '+' {
        hex_value(right)
    } else if hex_value(left) is Some && hex_value(right) is Some {
        Some(16 * hex_value(left)->0 + hex_value(right)->0)
    } else {
        None
    }
}

/// `s` is percent-encoded text: every character is ASCII, and every `%` is
/// followed by two characters that have a value.
pub open spec fn decodable(s: Seq<char>) -> bool
    decreases s.len(),
{
    if s.len() == 0 {
        true
    } else if s[0] as int > 127 {
        false
    } else if s[0] == '%' {
        &&& s.len() >= 3
        &&& s[1] as int <= 127
        &&& s[2] as int <= 127
        &&& escape_value(s[1], s[2]) is Some
        &&& decodable(s.skip(3))
    } else {
        decodable(s.skip(1))
    }
}

/// What percent-encoded text stands for: every `%` and the two characters
/// after it give the one character that has their value; every other
/// character stands for itself.
pub open spec fn percent_decoded(s: Seq<char>) -> Seq<char>
    decreases s.len(),
{
    if s.len() == 0 {
        Seq::empty()
    } else if s[0] == '%' && s.len() >= 3 {
        seq![escape_value(s[1], s[2]).unwrap_or(0) as char] + percent_decoded(s.skip(3))
    } else {
        seq![s[0]] + percent_decoded(s.skip(1))
    }
}

/// `urldecode::decode`. It walks the text by character, copies every
/// character but `%`, and for a `%` reads the two characters after it as a
/// number in base 16 (which may be written as `+` and one digit) and puts
/// the character with that number in their place. It panics on text that
/// is not ASCII and on a `%` that no such two characters follow, so those
/// are left out.
#[verifier::external_body]
fn decode(s: &str) -> (r: String)
    requires
        decodable(s@),
    ensures
        r@ == percent_decoded(s@),
{
    urldecode::decode(s.to_owned())
}

fn is_hex(c: char) -> (r: bool)
    ensures
        r == hex_value(c) is Some,
{
    ('0' <= c && c <= '9') || ('a' <= c && c <= 'f') || ('A' <= c && c <= 'F')
}

/// Whether `s` is percent-encoded text.
pub fn is_decodable(s: &str) -> (r: bool)
    ensures
        r == decodable(s@),
{
    let v = chars_of(s);
    let mut i: usize = 0;
    assert(v@.skip(0) =~= v@);
    while i < v.len()
        invariant
            i <= v.len(),
            v@ == s@,
            decodable(s@) == decodable(v@.skip(i as int)),
        decreases v.len() - i,
    {
        let ghost rest = v@.skip(i as int);
        let c = v[i];
        if c > '\x7f' {
            return false;
        }
        if c == '%' {
            if v.len() - i < 3 {
                return false;
            }
            let left = v[i + 1];
            let right = v[i + 2];
            if left > '\x7f' || right > '\x7f' {
                return false;
            }
            let valued = if left == '+' {
                is_hex(right)
            } else {
                is_hex(left) && is_hex(right)
            };
            if !valued {
                return false;
            }
            assert(rest.skip(3) =~= v@.skip(i + 3));
            i += 3;
        } else {
            assert(rest.skip(1) =~= v@.skip(i + 1));
            i += 1;
        }
    }
    true
}

/// Percent-decodes `s`, if it is percent-encoded text.
pub fn percent_decode(s: &str) -> (r: Option<String>)
    ensures
        r is Some <==> decodable(s@),
        r is Some ==> r->0@ == percent_decoded(s@),
{
    if is_decodable(s) {
        Some(decode(s))
    } else {
        None
    }
}

} // verus!
