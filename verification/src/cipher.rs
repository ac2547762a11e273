//! The two ways in which a media address is hidden: a token inside the
//! address that has to be replaced, and a signature cipher from which the
//! address has to be put together.

use vstd::prelude::*;
use vstd::string::StringExecFns;
use crate::error::{Marker, ResolveError};
use crate::escape::{decodable, percent_decode, percent_decoded};
use crate::text::{
    chars_of, code_point, find, find_first, find_from, last_index_of, rfind_char,
    string_of_range,
};

verus! {

broadcast use vstd::string::group_string_axioms;

/// Where the `n` token of an address starts: behind the first `&n=`.
pub open spec fn n_token_start(url: Seq<char>) -> Option<int> {
    match find_first(url, "&n="@) {
        Some(at) => Some(at + "&n="@.len()),
        None => None,
    }
}

/// Where the token that starts at `start` ends: at the next `&`, or at the
/// end of the address.
pub open spec fn n_token_end(url: Seq<char>, start: int) -> int {
    match find_from(url, "&"@, start) {
        Some(at) => at,
        None => url.len() as int,
    }
}

/// The `n` token of an address, if it has one.
pub open spec fn n_token(url: Seq<char>) -> Option<Seq<char>> {
    match n_token_start(url) {
        Some(start) => Some(url.subrange(start, n_token_end(url, start))),
        None => None,
    }
}

/// The address with `token` in the place of its `n` token, and every
/// character before and behind it as it was.
pub open spec fn with_n_token(url: Seq<char>, token: Seq<char>) -> Option<Seq<char>> {
    match n_token_start(url) {
        Some(start) => Some(
            url.subrange(0, start) + token + url.subrange(
                n_token_end(url, start),
                url.len() as int,
            ),
        ),
        None => None,
    }
}

/// The start and the end of the `n` token in `url`.
fn n_token_span(url: &Vec<char>) -> (r: Option<(usize, usize)>)
    ensures
        match r {
            Some((start, end)) => {
                &&& n_token_start(url@) == Some(start as int)
                &&& n_token_end(url@, start as int) == end
                &&& start <= end <= url.len()
            },
            None => n_token_start(url@) is None,
        },
{
    let marker = chars_of("&n=");
    let amp = chars_of("&");
    proof {
        reveal_strlit("&n=");
        reveal_strlit("&");
    }
    match find(url, &marker, 0) {
        None => None,
        Some(at) => {
            proof {
                crate::text::lemma_find_from(url@, marker@, 0);
                assert(at + 3 <= url.len());
            }
            let start = at + 3;
            let end = match find(url, &amp, start) {
                Some(e) => {
                    proof {
                        crate::text::lemma_find_from(url@, amp@, start as int);
                    }
                    e
                },
                None => url.len(),
            };
            Some((start, end))
        },
    }
}

/// The `n` token of `url`.
pub fn n_token_of(url: &str) -> (r: Result<String, ResolveError>)
    ensures
        match r {
            Ok(token) => n_token(url@) == Some(token@),
            Err(e) => n_token(url@) is None && e == ResolveError::MarkerNotFound(Marker::NToken),
        },
{
    let v = chars_of(url);
    match n_token_span(&v) {
        Some((start, end)) => Ok(string_of_range(&v, start, end)),
        None => Err(ResolveError::MarkerNotFound(Marker::NToken)),
    }
}

/// `url` with `token` in the place of its `n` token.
pub fn substitute_n(url: &str, token: &str) -> (r: Result<String, ResolveError>)
    ensures
        match r {
            Ok(new) => with_n_token(url@, token@) == Some(new@),
            Err(e) => with_n_token(url@, token@) is None && e == ResolveError::MarkerNotFound(
                Marker::NToken,
            ),
        },
{
    let v = chars_of(url);
    match n_token_span(&v) {
        Some((start, end)) => {
            let mut new = string_of_range(&v, 0, start);
            new.append(token);
            let tail = string_of_range(&v, end, v.len());
            new.append(tail.as_str());
            Ok(new)
        },
        None => Err(ResolveError::MarkerNotFound(Marker::NToken)),
    }
}

/// The three parts of a signature cipher, decoded.
#[derive(Debug, PartialEq, Eq)]
pub struct SignatureCipher {
    /// The scrambled signature.
    pub signature: String,
    /// The name of the query parameter that takes the signature.
    pub param: String,
    /// The address that the signature belongs to.
    pub url: String,
}

/// The parts of a signature cipher as plain text.
pub struct CipherText {
    pub signature: Seq<char>,
    pub param: Seq<char>,
    pub url: Seq<char>,
}

impl View for SignatureCipher {
    type V = CipherText;

    open spec fn view(&self) -> CipherText {
        CipherText { signature: self.signature@, param: self.param@, url: self.url@ }
    }
}

/// The last three fields of a cipher, where fields are parted by `&`: the
/// signature field without its first two characters, the parameter field
/// without its first three and the address field without its first four,
/// which hold the fields' names. `None` where there are fewer than three
/// fields, or where a field is too short to hold its name.
pub open spec fn cipher_fields(cipher: Seq<char>) -> Option<CipherText> {
    let len = cipher.len() as int;
    match last_index_of(cipher, '&', len) {
        None => None,
        Some(third) => match last_index_of(cipher, '&', third) {
            None => None,
            Some(second) => {
                let first = match last_index_of(cipher, '&', second) {
                    Some(at) => at + 1,
                    None => 0,
                };
                if first + 2 <= second && second + 4 <= third && third + 5 <= len {
                    Some(
                        CipherText {
                            signature: cipher.subrange(first + 2, second),
                            param: cipher.subrange(second + 4, third),
                            url: cipher.subrange(third + 5, len),
                        },
                    )
                } else {
                    None
                }
            },
        },
    }
}

/// What a signature cipher holds: its fields, the signature and the
/// parameter name percent-decoded once and the address twice.
pub open spec fn cipher_parts(cipher: Seq<char>) -> Result<CipherText, ResolveError> {
    match cipher_fields(cipher) {
        None => Err(ResolveError::CipherFields),
        Some(raw) => if decodable(raw.signature) && decodable(raw.param) && decodable(raw.url)
            && decodable(percent_decoded(raw.url)) {
            Ok(
                CipherText {
                    signature: percent_decoded(raw.signature),
                    param: percent_decoded(raw.param),
                    url: percent_decoded(percent_decoded(raw.url)),
                },
            )
        } else {
            Err(ResolveError::CipherEscape)
        },
    }
}

/// Takes a signature cipher apart.
pub fn parse_cipher(cipher: &str) -> (r: Result<SignatureCipher, ResolveError>)
    ensures
        match r {
            Ok(parts) => cipher_parts(cipher@) == Ok::<CipherText, ResolveError>(parts@),
            Err(e) => cipher_parts(cipher@) == Err::<CipherText, ResolveError>(e),
        },
{
    let v = chars_of(cipher);
    let third = match rfind_char(&v, '&', v.len()) {
        Some(at) => at,
        None => {
            return Err(ResolveError::CipherFields);
        },
    };
    let second = match rfind_char(&v, '&', third) {
        Some(at) => at,
        None => {
            return Err(ResolveError::CipherFields);
        },
    };
    let first = match rfind_char(&v, '&', second) {
        Some(at) => at + 1,
        None => 0,
    };
    if second - first < 2 || third - second < 4 || v.len() - third < 5 {
        return Err(ResolveError::CipherFields);
    }
    let raw_signature = string_of_range(&v, first + 2, second);
    let raw_param = string_of_range(&v, second + 4, third);
    let raw_url = string_of_range(&v, third + 5, v.len());
    let signature = percent_decode(raw_signature.as_str());
    let param = percent_decode(raw_param.as_str());
    let once = percent_decode(raw_url.as_str());
    match (signature, param, once) {
        (Some(signature), Some(param), Some(once)) => match percent_decode(once.as_str()) {
            Some(url) => Ok(SignatureCipher { signature, param, url }),
            None => Err(ResolveError::CipherEscape),
        },
        _ => Err(ResolveError::CipherEscape),
    }
}

/// The text that names every position of a signature of `len` characters:
/// its character at position `i` has the code point `i`.
pub open spec fn position_text(len: nat) -> Seq<char> {
    Seq::new(len, |i: int| i as char)
}

/// The largest length of a signature whose positions can all be named: the
/// code points from 0 up to the first surrogate.
pub const MAX_SIGNATURE: usize = 0xD800;

/// The text that names every position of a signature of `len` characters.
pub fn positions(len: usize) -> (r: Result<String, ResolveError>)
    ensures
        match r {
            Ok(text) => len <= MAX_SIGNATURE && text@ == position_text(len as nat),
            Err(e) => len > MAX_SIGNATURE && e == ResolveError::SignatureTooLong,
        },
{
    if len > MAX_SIGNATURE {
        return Err(ResolveError::SignatureTooLong);
    }
    let mut text = String::new();
    let mut i: u32 = 0;
    while (i as usize) < len
        invariant
            i <= len <= MAX_SIGNATURE,
            text@ == position_text(i as nat),
        decreases len - i,
    {
        match char::from_u32(i) {
            Some(c) => {
                text.push(c);
            },
            None => {},
        }
        i += 1;
    }
    Ok(text)
}

/// The signature put in the order that `answer` gives: the code point of
/// each character of `answer` is a position in `signature`. `None` where
/// one of them lies outside the signature.
pub open spec fn descrambled(signature: Seq<char>, answer: Seq<char>) -> Option<Seq<char>> {
    if forall|k: int| 0 <= k < answer.len() ==> ((#[trigger] answer[k]) as int) < signature.len() {
        Some(Seq::new(answer.len(), |k: int| signature[answer[k] as int]))
    } else {
        None
    }
}

/// Puts the characters of `signature` in the order that `answer` gives.
pub fn descramble(signature: &str, answer: &str) -> (r: Result<String, ResolveError>)
    ensures
        match r {
            Ok(text) => descrambled(signature@, answer@) == Some(text@),
            Err(e) => descrambled(signature@, answer@) is None && e
                == ResolveError::PositionOutOfRange,
        },
{
    let from = chars_of(signature);
    let order = chars_of(answer);
    let mut text = String::new();
    let mut k: usize = 0;
    while k < order.len()
        invariant
            k <= order.len(),
            from@ == signature@,
            order@ == answer@,
            forall|j: int| 0 <= j < k ==> ((#[trigger] order@[j]) as int) < from.len(),
            text@ == Seq::new(k as nat, |j: int| from@[order@[j] as int]),
        decreases order.len() - k,
    {
        let at = code_point(order[k]) as usize;
        if at >= from.len() {
            return Err(ResolveError::PositionOutOfRange);
        }
        text.push(from[at]);
        k += 1;
    }
    Ok(text)
}

/// The address of a signature cipher with its descrambled signature: the
/// address, `&`, the parameter name, `=`, the signature.
pub open spec fn signed_url(parts: CipherText, signature: Seq<char>) -> Seq<char> {
    parts.url + "&"@ + parts.param + "="@ + signature
}

impl SignatureCipher {
    /// The address with the descrambled `signature` added to it.
    pub fn sign(&self, signature: &str) -> (r: String)
        ensures
            r@ == signed_url(self@, signature@),
    {
        let mut r = self.url.clone();
        r.append("&");
        r.append(self.param.as_str());
        r.append("=");
        r.append(signature);
        r
    }
}

} // verus!
