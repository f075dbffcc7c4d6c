//! Encodings of cookie values and query strings.

use base64::engine::general_purpose::URL_SAFE_NO_PAD;
use base64::Engine as _;
use vstd::prelude::*;
use vstd::utf8::{decode_utf8, valid_utf8};

use crate::text::opt_text;

verus! {

/// The base64url text of `bytes`, without padding.
pub uninterp spec fn base64url(bytes: Seq<u8>) -> Seq<char>;

/// The bytes that unpadded base64url `text` stands for, if it is well formed.
pub uninterp spec fn base64url_bytes(text: Seq<char>) -> Option<Seq<u8>>;

/// A character of the base64url alphabet: an ASCII letter, a digit, `-` or
/// `_`.
pub open spec fn is_base64url_char(c: char) -> bool {
    ||| 'A' <= c <= 'Z'
    ||| 'a' <= c <= 'z'
    ||| '0' <= c <= '9'
    ||| c == '-'
    ||| c == '_'
}

/// How many characters the unpadded base64 text of `n` bytes has: four for
/// every three bytes, then two or three for one or two bytes left over.
pub open spec fn base64_len(n: nat) -> nat {
    n / 3 * 4 + (if n % 3 == 0 {
        0nat
    } else {
        n % 3 + 1
    })
}

/// `URL_SAFE_NO_PAD.encode`: the base64url text of `bytes`. It has
/// [`base64_len`] characters, all of the base64url alphabet, and
/// `URL_SAFE_NO_PAD.decode` reads the bytes back from it. The text has to fit
/// in memory.
#[verifier::external_body]
pub(crate) fn encode_base64url(bytes: &[u8]) -> (text: String)
    requires
        base64_len(bytes@.len()) <= isize::MAX,
    ensures
        text@ == base64url(bytes@),
        text@.len() == base64_len(bytes@.len()),
        forall|i: int| 0 <= i < text@.len() ==> is_base64url_char(#[trigger] text@[i]),
        base64url_bytes(text@) == Some(bytes@),
{
    URL_SAFE_NO_PAD.encode(bytes)
}

/// `URL_SAFE_NO_PAD.decode`: the bytes behind unpadded base64url text, or
/// `None` where the text is malformed.
#[verifier::external_body]
pub(crate) fn decode_base64url(text: &str) -> (bytes: Option<Vec<u8>>)
    ensures
        match bytes {
            Some(b) => base64url_bytes(text@) == Some(b@),
            None => base64url_bytes(text@) is None,
        },
{
    URL_SAFE_NO_PAD.decode(text).ok()
}

/// The text that UTF-8 `bytes` encode, if they are valid UTF-8.
pub open spec fn utf8_text(bytes: Seq<u8>) -> Option<Seq<char>> {
    if valid_utf8(bytes) {
        Some(decode_utf8(bytes))
    } else {
        None
    }
}

/// `String::from_utf8`: the text of valid UTF-8 bytes, `None` for any other.
#[verifier::external_body]
pub(crate) fn text_from_utf8(bytes: Vec<u8>) -> (text: Option<String>)
    ensures
        opt_text(text) == utf8_text(bytes@),
{
    String::from_utf8(bytes).ok()
}

/// The texts of a list of pairs.
pub open spec fn pair_texts(pairs: Seq<(String, String)>) -> Seq<(Seq<char>, Seq<char>)> {
    pairs.map_values(|p: (String, String)| (p.0@, p.1@))
}

/// The name/value pairs of an `application/x-www-form-urlencoded` text, in
/// order.
pub uninterp spec fn form_pairs(text: Seq<char>) -> Option<Seq<(Seq<char>, Seq<char>)>>;

/// `serde_html_form::from_str` into a list of pairs: the name/value pairs of a
/// query string, percent-decoded and in order, repeated names kept.
#[verifier::external_body]
pub(crate) fn decode_form(text: &str) -> (pairs: Option<Vec<(String, String)>>)
    ensures
        match pairs {
            Some(p) => form_pairs(text@) == Some(pair_texts(p@)),
            None => form_pairs(text@) is None,
        },
{
    serde_html_form::from_str::<Vec<(String, String)>>(text).ok()
}

/// The `application/x-www-form-urlencoded` text of a list of pairs.
pub uninterp spec fn form_text(pairs: Seq<(Seq<char>, Seq<char>)>) -> Option<Seq<char>>;

/// `serde_html_form::to_string` of a list of pairs: the pairs in order, each
/// percent-encoded.
#[verifier::external_body]
pub(crate) fn encode_form(pairs: &Vec<(String, String)>) -> (text: Option<String>)
    ensures
        opt_text(text) == form_text(pair_texts(pairs@)),
{
    serde_html_form::to_string(pairs).ok()
}

} // verus!
