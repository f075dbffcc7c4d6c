//! Reading request headers, and what may stand in a header value.

use http::HeaderMap;
use vstd::prelude::*;

use crate::text::{chars_of, lower, opt_text, to_lower};

verus! {

/// The `http` crate's multi-map of header names to header values.
#[verifier::external_type_specification]
#[verifier::external_body]
#[verifier::reject_recursive_types(T)]
pub struct ExHeaderMap<T>(http::HeaderMap<T>);

/// The `http` crate's header value: bytes that may stand in a header.
#[verifier::external_type_specification]
#[verifier::external_body]
pub struct ExHeaderValue(http::HeaderValue);

/// What a header map holds: for each header name present, in lower case, the
/// bytes of its values in the order they were added.
pub uninterp spec fn header_lists(headers: HeaderMap) -> Map<Seq<char>, Seq<Seq<u8>>>;

/// The values a header map holds under `name`, in order; none when the header
/// is absent.
pub open spec fn values_of(headers: HeaderMap, name: Seq<char>) -> Seq<Seq<u8>> {
    if header_lists(headers).dom().contains(name) {
        header_lists(headers)[name]
    } else {
        Seq::empty()
    }
}

/// The first value under `name`, if the header is present.
pub open spec fn first_value(headers: HeaderMap, name: Seq<char>) -> Option<Seq<u8>> {
    if header_lists(headers).dom().contains(name) {
        Some(header_lists(headers)[name][0])
    } else {
        None
    }
}

/// A byte of a readable header value: visible ASCII, a space or a tab.
pub open spec fn is_readable(b: u8) -> bool {
    32 <= b < 127 || b == 9
}

/// The text of a header value, when every byte of it is readable.
pub open spec fn text_of(value: Seq<u8>) -> Option<Seq<char>> {
    if forall|i: int| 0 <= i < value.len() ==> is_readable(#[trigger] value[i]) {
        Some(Seq::new(value.len(), |i: int| value[i] as char))
    } else {
        None
    }
}

/// Whether `name` is spelled the way header names are kept: lower-case
/// letters and hyphens.
pub open spec fn is_lower_name(name: Seq<char>) -> bool {
    forall|i: int| 0 <= i < name.len() ==> ('a' <= #[trigger] name[i] <= 'z' || name[i] == '-')
}

/// A character that may stand in a header value: anything but the ASCII
/// control characters, of which only the tab is allowed.
pub open spec fn is_header_char(c: char) -> bool {
    c == '\t' || (c >= ' ' && c != '\x7f')
}

/// Whether `text` may stand as a header value.
pub open spec fn is_header_text(text: Seq<char>) -> bool {
    forall|i: int| 0 <= i < text.len() ==> is_header_char(#[trigger] text[i])
}

/// `HeaderMap::get` with the bytes of the value it finds: the first value
/// kept under `name`, or `None` when the header is absent.
#[verifier::external_body]
pub(crate) fn header_value(headers: &HeaderMap, name: &str) -> (value: Option<Vec<u8>>)
    requires
        is_lower_name(name@),
    ensures
        match value {
            Some(v) => header_lists(*headers).dom().contains(name@) && v@ == header_lists(
                *headers,
            )[name@][0],
            None => !header_lists(*headers).dom().contains(name@),
        },
{
    headers.get(name).map(|v| v.as_bytes().to_vec())
}

/// `HeaderMap::get_all` with each value read by `HeaderValue::to_str`: every
/// value kept under `name`, in order, as text where all its bytes are visible
/// ASCII, a space or a tab, and as `None` where one is not. A header that is
/// present has at least one value.
#[verifier::external_body]
pub(crate) fn header_texts(headers: &HeaderMap, name: &str) -> (values: Vec<Option<String>>)
    requires
        is_lower_name(name@),
    ensures
        values@.len() == values_of(*headers, name@).len(),
        header_lists(*headers).dom().contains(name@) ==> values@.len() > 0,
        forall|i: int|
            0 <= i < values@.len() ==> opt_text(#[trigger] values@[i]) == text_of(
                values_of(*headers, name@)[i],
            ),
{
    headers.get_all(name).iter().map(|v| v.to_str().ok().map(str::to_owned)).collect()
}

/// `HeaderValue::from_str` accepts a text exactly when none of its characters
/// is an ASCII control character other than the tab.
#[verifier::external_body]
pub(crate) fn is_header_value(text: &str) -> (ok: bool)
    ensures
        ok == is_header_text(text@),
{
    http::HeaderValue::from_str(text).is_ok()
}

/// Whether the bytes spell `text`, byte for character.
pub open spec fn spells(bytes: Seq<u8>, text: Seq<char>) -> bool {
    bytes.len() == text.len() && forall|i: int|
        0 <= i < bytes.len() ==> #[trigger] bytes[i] as char == text[i]
}

/// Whether the bytes spell `text` when the case of ASCII letters is ignored.
pub open spec fn spells_ignoring_case(bytes: Seq<u8>, text: Seq<char>) -> bool {
    bytes.len() == text.len() && forall|i: int|
        0 <= i < bytes.len() ==> lower(#[trigger] bytes[i] as char) == lower(text[i])
}

/// Whether the bytes spell `text`.
pub fn bytes_spell(bytes: &Vec<u8>, text: &str) -> (r: bool)
    ensures
        r == spells(bytes@, text@),
{
    let t = chars_of(text);
    if t.len() != bytes.len() {
        return false;
    }
    let mut i: usize = 0;
    while i < t.len()
        invariant
            i <= t@.len(),
            t@.len() == bytes@.len(),
            t@ == text@,
            forall|k: int| 0 <= k < i ==> #[trigger] bytes@[k] as char == t@[k],
        decreases t@.len() - i,
    {
        if bytes[i] as char != t[i] {
            return false;
        }
        i = i + 1;
    }
    true
}

/// Whether the bytes spell `text` when the case of ASCII letters is ignored.
pub fn bytes_spell_ignoring_case(bytes: &Vec<u8>, text: &str) -> (r: bool)
    ensures
        r == spells_ignoring_case(bytes@, text@),
{
    let t = chars_of(text);
    if t.len() != bytes.len() {
        return false;
    }
    let mut i: usize = 0;
    while i < t.len()
        invariant
            i <= t@.len(),
            t@.len() == bytes@.len(),
            t@ == text@,
            forall|k: int|
                0 <= k < i ==> lower(#[trigger] bytes@[k] as char) == lower(t@[k]),
        decreases t@.len() - i,
    {
        if to_lower(bytes[i] as char) != to_lower(t[i]) {
            return false;
        }
        i = i + 1;
    }
    true
}

/// Bytes spell a text when each is the character at its place; ignoring case,
/// when they differ from it only in the case of ASCII letters.
pub proof fn law_spelling_is_exact(
    bytes: Vec<u8>,
    text: &str,
    exact: bool,
    loose: bool,
)
    requires
        call_ensures(bytes_spell, (&bytes, text), exact),
        call_ensures(bytes_spell_ignoring_case, (&bytes, text), loose),
    ensures
        exact <==> bytes@.len() == text@.len() && forall|i: int|
            0 <= i < bytes@.len() ==> (#[trigger] bytes@[i]) as int == text@[i] as int,
        exact == spells(bytes@, text@),
        loose == spells_ignoring_case(bytes@, text@),
        exact ==> loose,
        loose ==> bytes@.len() == text@.len(),
        loose ==> forall|i: int|
            0 <= i < bytes@.len() ==> {
                let b = (#[trigger] bytes@[i]) as int;
                let t = text@[i] as int;
                ||| b == t
                ||| 65 <= b <= 90 && t == b + 32
                ||| 65 <= t <= 90 && b == t + 32
            },
        bytes@.len() == text@.len() && (forall|i: int|
            0 <= i < bytes@.len() ==> {
                let b = (#[trigger] bytes@[i]) as int;
                let t = text@[i] as int;
                ||| b == t
                ||| 65 <= b <= 90 && t == b + 32
                ||| 65 <= t <= 90 && b == t + 32
            }) ==> loose,
{
}

} // verus!
