//! Header maps. The map itself is `http::HeaderMap`; this module states
//! what the service relies on when it reads and fills one.
//!
//! A header map is seen as a map from header names, in lower case, to the
//! bytes of the first value stored under each name.

use vstd::prelude::*;
use http::{HeaderMap, HeaderValue};

verus! {

/// `http::HeaderMap`, opaque to the verifier.
#[verifier::external_type_specification]
#[verifier::external_body]
#[verifier::reject_recursive_types(T)]
pub struct ExHeaderMap<T>(HeaderMap<T>);

/// `http::HeaderValue`, opaque to the verifier.
#[verifier::external_type_specification]
#[verifier::external_body]
pub struct ExHeaderValue(HeaderValue);

/// What a header map holds: for each header name present, in lower case,
/// the bytes of the first value stored under it.
pub uninterp spec fn header_values(headers: HeaderMap) -> Map<Seq<char>, Seq<u8>>;

/// How many distinct header names a map holds.
pub uninterp spec fn header_count(headers: HeaderMap) -> nat;

/// Number of distinct names below which an insertion cannot exhaust the map.
pub const MAX_HEADER_NAMES: usize = 4096;

/// Whether `c` may stand in a header name as written here: a lower-case
/// letter, a digit or a hyphen.
pub open spec fn is_name_char(c: char) -> bool {
    ('a' <= c && c <= 'z') || ('0' <= c && c <= '9') || c == '-'
}

/// Whether `name` is a header name in the form this module uses: one to
/// sixty-four characters, each a lower-case letter, a digit or a hyphen.
pub open spec fn is_header_name(name: Seq<char>) -> bool {
    &&& 1 <= name.len() <= 64
    &&& forall|i: int| 0 <= i < name.len() ==> is_name_char(#[trigger] name[i])
}

/// The bytes that encode a text.
pub open spec fn text_bytes(text: Seq<char>) -> Seq<u8> {
    vstd::utf8::encode_utf8(text)
}

/// Whether `b` may stand in a header value: anything but a control
/// character, the horizontal tab excepted.
pub open spec fn is_value_byte(b: u8) -> bool {
    (b >= 32 && b != 127) || b == 9
}

/// Whether `bytes` can be stored as a header value.
pub open spec fn is_header_value(bytes: Seq<u8>) -> bool {
    forall|i: int| 0 <= i < bytes.len() ==> is_value_byte(#[trigger] bytes[i])
}

/// The contents of a map without headers.
pub open spec fn no_headers() -> Map<Seq<char>, Seq<u8>> {
    Map::empty()
}

/// Whether `text` is made of printable ASCII characters only.
pub open spec fn is_plain_text(text: Seq<char>) -> bool {
    forall|i: int| 0 <= i < text.len() ==> ' ' <= #[trigger] text[i] <= '~'
}

/// Printable ASCII text is encoded character by character and can be
/// stored as a header value.
pub proof fn lemma_plain_text(text: Seq<char>)
    requires
        is_plain_text(text),
    ensures
        is_header_value(text_bytes(text)),
        text_bytes(text).len() == text.len(),
        forall|i: int| 0 <= i < text.len() ==> #[trigger] text_bytes(text)[i] == text[i] as u8,
{
    assert(vstd::utf8::is_ascii_chars(text)) by {
        assert forall|i: int| 0 <= i < text.len() implies '\0' <= #[trigger] text[i] <= '\u{7f}' by {
            assert(' ' <= text[i] <= '~');
        }
    }
    vstd::utf8::is_ascii_chars_encode_utf8(text);
    assert forall|i: int| 0 <= i < text_bytes(text).len() implies is_value_byte(
        #[trigger] text_bytes(text)[i],
    ) by {
        assert(' ' <= text[i] <= '~');
        assert(text_bytes(text)[i] == text[i] as u8);
    }
}

/// Whether a map has room for one more name.
pub open spec fn has_room(headers: HeaderMap) -> bool {
    header_count(headers) < MAX_HEADER_NAMES
}

/// The value stored under `name`, if the map holds that name.
pub open spec fn header(headers: HeaderMap, name: Seq<char>) -> Option<Seq<u8>> {
    if header_values(headers).contains_key(name) {
        Some(header_values(headers)[name])
    } else {
        None
    }
}

/// `HeaderMap::new`: the new map holds no header.
#[verifier::external_body]
pub(crate) fn headers_new() -> (headers: HeaderMap)
    ensures
        header_values(headers) == no_headers(),
        header_count(headers) == 0,
{
    HeaderMap::new()
}

/// `HeaderMap::keys_len`: the number of distinct names in the map.
#[verifier::external_body]
pub(crate) fn headers_len(headers: &HeaderMap) -> (n: usize)
    ensures
        n == header_count(*headers),
{
    headers.keys_len()
}

/// `HeaderMap::get` with a name given in lower case: the bytes of the
/// first value stored under that name, or nothing where the map does not
/// hold the name.
#[verifier::external_body]
pub(crate) fn headers_get(headers: &HeaderMap, name: &str) -> (value: Option<Vec<u8>>)
    requires
        is_header_name(name@),
    ensures
        match value {
            Some(bytes) => header(*headers, name@) == Some(bytes@),
            None => header(*headers, name@) is None,
        },
{
    headers.get(name).map(|v| v.as_bytes().to_vec())
}

/// `HeaderMap::insert` with a name given in lower case and a value given
/// as text: afterwards the name maps to the bytes of the text, and every
/// other name maps to what it did; the map holds one name more if it did
/// not hold this one. The function panics on a name or value that is not
/// valid and on a map grown to its limit; all three are excluded here.
#[verifier::external_body]
pub(crate) fn headers_insert(headers: &mut HeaderMap, name: &str, value: &str)
    requires
        is_header_name(name@),
        is_header_value(text_bytes(value@)),
        has_room(*old(headers)),
    ensures
        header_values(*final(headers)) == header_values(*old(headers)).insert(name@, text_bytes(value@)),
        header_count(*final(headers)) == header_count(*old(headers)) + (if header_values(
            *old(headers),
        ).contains_key(name@) {
            0nat
        } else {
            1nat
        }),
{
    headers.insert(
        http::HeaderName::from_bytes(name.as_bytes()).unwrap(),
        HeaderValue::from_str(value).unwrap(),
    );
}

/// Whether two byte strings are equal.
pub fn bytes_equal(a: &[u8], b: &[u8]) -> (same: bool)
    ensures
        same == (a@ == b@),
{
    if a.len() != b.len() {
        return false;
    }
    let mut i: usize = 0;
    while i < a.len()
        invariant
            a.len() == b.len(),
            i <= a.len(),
            forall|k: int| 0 <= k < i ==> a@[k] == b@[k],
        decreases a.len() - i,
    {
        if a[i] != b[i] {
            return false;
        }
        i += 1;
    }
    assert(a@ =~= b@);
    true
}

/// Whether `text` can be stored as a header value.
pub fn is_header_text(text: &str) -> (ok: bool)
    ensures
        ok == is_header_value(text_bytes(text@)),
{
    let bytes = text.as_bytes();
    let mut i: usize = 0;
    while i < bytes.len()
        invariant
            bytes@ == text_bytes(text@),
            i <= bytes.len(),
            forall|k: int| 0 <= k < i ==> is_value_byte(#[trigger] bytes@[k]),
        decreases bytes.len() - i,
    {
        let b = bytes[i];
        if !((b >= 32 && b != 127) || b == 9) {
            return false;
        }
        i += 1;
    }
    true
}

/// Whether the map holds `name` with exactly the bytes of `text` as its
/// first value.
pub fn header_is(headers: &HeaderMap, name: &str, text: &str) -> (same: bool)
    requires
        is_header_name(name@),
    ensures
        same == (header(*headers, name@) == Some(text_bytes(text@))),
{
    match headers_get(headers, name) {
        Some(bytes) => bytes_equal(bytes.as_slice(), text.as_bytes()),
        None => false,
    }
}

} // verus!
