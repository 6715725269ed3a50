use vstd::prelude::*;

use crate::error::ApiError;
use crate::text::push_char;

verus! {

/// What `uuid::Uuid::parse_str` gives for a text, as the 128-bit value of
/// the UUID (`Uuid::as_u128`), or `None` where it reports an error.
pub uninterp spec fn uuid_parse(s: Seq<char>) -> Option<u128>;

/// `16^n`.
pub open spec fn pow16(n: nat) -> nat
    decreases n,
{
    if n == 0 { 1 } else { 16 * pow16((n - 1) as nat) }
}

/// Lower-case hexadecimal digit.
pub open spec fn hex_lower(d: int) -> char {
    if d < 10 {
        crate::text::digit_char(d)
    } else if d == 10 { 'a' }
    else if d == 11 { 'b' }
    else if d == 12 { 'c' }
    else if d == 13 { 'd' }
    else if d == 14 { 'e' }
    else { 'f' }
}

/// The `k`-th of the 32 hexadecimal digits of `v`, most significant first.
pub open spec fn uuid_nibble(v: u128, k: int) -> int {
    ((v as nat) / pow16((31 - k) as nat)) as int % 16
}

/// Which of the 32 digits stands at position `p` of the hyphenated text.
pub open spec fn nibble_at(p: int) -> int {
    if p < 8 { p }
    else if p < 13 { p - 1 }
    else if p < 18 { p - 2 }
    else if p < 23 { p - 3 }
    else { p - 4 }
}

/// The hyphenated lower-case text of a UUID (`8-4-4-4-12` hexadecimal
/// digits), as `Uuid`'s `Display` writes it.
pub open spec fn uuid_hyphenated(v: u128) -> Seq<char> {
    Seq::new(36, |p: int|
        if p == 8 || p == 13 || p == 18 || p == 23 { '-' } else { hex_lower(uuid_nibble(v, nibble_at(p))) }
    )
}

/// Whether a text has one of the lengths of the UUID forms that the uuid
/// crate reads: simple (32), hyphenated (36), braced (38) or URN (45).
pub open spec fn uuid_length(s: Seq<char>) -> bool {
    s.len() == 32 || s.len() == 36 || s.len() == 38 || s.len() == 45
}

/// `uuid::Uuid::parse_str`, read through `Uuid::as_u128`.
/// Claims that the result is the one `uuid_parse` names; that only texts of
/// the lengths of its four forms are read (the parser refuses every other
/// length, and any character outside ASCII fails its checks, so the length
/// in characters is the length in bytes); and, as the uuid crate documents
/// for its own formats, that the hyphenated text of a UUID parses back to
/// that UUID.
#[verifier::external_body]
fn uuid_from_text(s: &str) -> (r: Option<u128>)
    ensures
        r == uuid_parse(s@),
        r is Some ==> uuid_length(s@),
        forall|v: u128| #[trigger] uuid_hyphenated(v) == s@ ==> r == Some(v),
{
    match uuid::Uuid::parse_str(s) {
        Ok(u) => Some(u.as_u128()),
        Err(_) => None,
    }
}

/// `uuid::Uuid::from_u128(v).to_string()`.
/// Claims that the text is the hyphenated lower-case form (`Display` for
/// `Uuid` writes `LowerHex`, which is hyphenated).
#[verifier::external_body]
pub(crate) fn uuid_to_text(v: u128) -> (r: String)
    ensures
        r@ == uuid_hyphenated(v),
{
    uuid::Uuid::from_u128(v).to_string()
}

/// Parses a content id; a text that is not a UUID is refused with
/// `InvalidContentId`. The ids this service writes in its answers are
/// accepted back.
pub fn parse_content_id(content_id: &str) -> (r: Result<u128, ApiError>)
    ensures
        r == (match uuid_parse(content_id@) {
            Some(v) => Ok::<u128, ApiError>(v),
            None => Err(ApiError::InvalidContentId),
        }),
        forall|v: u128| #[trigger] uuid_hyphenated(v) == content_id@ ==> r == Ok::<u128, ApiError>(v),
        r is Ok ==> uuid_length(content_id@),
{
    match uuid_from_text(content_id) {
        Some(v) => Ok(v),
        None => Err(ApiError::InvalidContentId),
    }
}

/// Whether a header byte is visible ASCII or a tab, the bytes that
/// `HeaderValue::to_str` accepts.
pub open spec fn visible_header_byte(b: u8) -> bool {
    (32 <= b && b < 127) || b == 9
}

/// The text of a header value whose bytes are all visible ASCII.
pub open spec fn header_chars(bytes: Seq<u8>) -> Seq<char> {
    bytes.map_values(|b: u8| b as char)
}

/// What `extract_user_id` answers for the raw `X-User-Id` header (absent or its bytes).
pub open spec fn user_id_result(header: Option<Seq<u8>>) -> Result<u128, ApiError> {
    match header {
        None => Err(ApiError::MissingUserId),
        Some(bytes) => {
            if !(forall|i: int| 0 <= i < bytes.len() ==> visible_header_byte(#[trigger] bytes[i])) {
                Err(ApiError::InvalidUserIdHeader)
            } else {
                match uuid_parse(header_chars(bytes)) {
                    Some(v) => Ok(v),
                    None => Err(ApiError::InvalidUserId),
                }
            }
        }
    }
}

/// Every character of the hyphenated text of a UUID is visible ASCII.
proof fn lemma_hyphenated_char_visible(v: u128, p: int)
    requires
        0 <= p < 36,
    ensures
        32 <= uuid_hyphenated(v)[p] as int && (uuid_hyphenated(v)[p] as int) < 127,
{
    let d = uuid_nibble(v, nibble_at(p));
    assert(0 <= d < 16);
}

/// The text of a header value, or `None` when a byte is not visible ASCII.
fn header_text(bytes: &[u8]) -> (r: Option<String>)
    ensures
        r is Some <==> (forall|i: int| 0 <= i < bytes@.len() ==> visible_header_byte(#[trigger] bytes@[i])),
        r matches Some(s) ==> s@ == header_chars(bytes@),
{
    let mut out = String::new();
    let mut i: usize = 0;
    while i < bytes.len()
        invariant
            i <= bytes@.len(),
            forall|j: int| 0 <= j < i ==> visible_header_byte(#[trigger] bytes@[j]),
            out@ =~= header_chars(bytes@.take(i as int)),
        decreases bytes@.len() - i,
    {
        let b = bytes[i];
        if !((32 <= b && b < 127) || b == 9) {
            return None;
        }
        push_char(&mut out, b as char);
        assert(header_chars(bytes@.take(i + 1)) =~= header_chars(bytes@.take(i as int)).push(b as char));
        i = i + 1;
    }
    assert(bytes@.take(bytes@.len() as int) =~= bytes@);
    Some(out)
}

/// Reads the user id from the raw `X-User-Id` header: a missing header is
/// `401 Missing X-User-Id header`, a header that is not visible ASCII is
/// `400 Invalid X-User-Id header`, and a text that is not a UUID is
/// `400 Invalid user_id`.
pub fn extract_user_id(header: Option<&[u8]>) -> (r: Result<u128, ApiError>)
    ensures
        r == user_id_result(match header { Some(b) => Some(b@), None => None }),
        forall|v: u128| header matches Some(b) && #[trigger] uuid_hyphenated(v) == header_chars(b@)
            ==> r == Ok::<u128, ApiError>(v),
        r is Ok ==> (header matches Some(b) && uuid_length(header_chars(b@))),
{
    match header {
        None => Err(ApiError::MissingUserId),
        Some(bytes) => {
            proof {
                assert forall|v: u128| #[trigger] uuid_hyphenated(v) == header_chars(bytes@)
                    implies (forall|i: int| 0 <= i < bytes@.len() ==> visible_header_byte(#[trigger] bytes@[i])) by {
                    assert(header_chars(bytes@).len() == bytes@.len());
                    assert(uuid_hyphenated(v).len() == 36);
                    assert forall|i: int| 0 <= i < bytes@.len() implies visible_header_byte(#[trigger] bytes@[i]) by {
                        assert(header_chars(bytes@)[i] == uuid_hyphenated(v)[i]);
                        lemma_hyphenated_char_visible(v, i);
                        assert((bytes@[i] as char) as int == bytes@[i] as int);
                    }
                }
            }
            match header_text(bytes) {
                None => Err(ApiError::InvalidUserIdHeader),
                Some(text) => match uuid_from_text(text.as_str()) {
                    Some(v) => Ok(v),
                    None => Err(ApiError::InvalidUserId),
                },
            }
        },
    }
}

} // verus!
