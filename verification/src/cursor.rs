use vstd::prelude::*;
use vstd::utf8::*;

use crate::error::ApiError;

verus! {

broadcast use {vstd::utf8::encode_utf8_valid_utf8, vstd::utf8::encode_utf8_decode_utf8};

// ---------------------------------------------------------------------------
// Timestamps, as chrono reads and writes them.
// ---------------------------------------------------------------------------

/// The text that `DateTime::<Utc>::from_timestamp(secs, nanos)` displays
/// (`to_string()`), or `None` where chrono has no such instant.
pub uninterp spec fn chrono_text(secs: i64, nanos: u32) -> Option<Seq<char>>;

/// What `s.parse::<DateTime<Utc>>()` reads, as the instant's
/// `(timestamp(), timestamp_subsec_nanos())`, or `None` where it fails.
pub uninterp spec fn chrono_parse(s: Seq<char>) -> Option<(i64, u32)>;

/// `DateTime::<Utc>::from_timestamp(secs, nanos)` followed by `to_string()`.
/// Claims that the result is the one `chrono_text` names, and that the text
/// is short: chrono writes a year of at most seven characters (a sign and
/// six digits), month, day, hours, minutes, seconds, at most nine fractional
/// digits and ` UTC`, which is at most 36 characters.
#[verifier::external_body]
fn timestamp_display(secs: i64, nanos: u32) -> (r: Option<String>)
    ensures
        r is Some <==> chrono_text(secs, nanos) is Some,
        r matches Some(s) ==> chrono_text(secs, nanos) == Some(s@) && s@.len() <= 64,
{
    match chrono::DateTime::<chrono::Utc>::from_timestamp(secs, nanos) {
        Some(d) => Some(d.to_string()),
        None => None,
    }
}

/// `s.parse::<DateTime<Utc>>()`, read through `timestamp()` and
/// `timestamp_subsec_nanos()`.
/// Claims that the result is the one `chrono_parse` names; that what it
/// reads is an instant chrono can display; and that the displayed text of an
/// instant parses back to it (a leap second too: it is written as second 60
/// and read back as one), since the parser
/// accepts the `YYYY-MM-DD HH:MM:SS[.f] UTC` text that `Display` writes.
#[verifier::external_body]
fn timestamp_parse(s: &str) -> (r: Option<(i64, u32)>)
    ensures
        r == chrono_parse(s@),
        r matches Some((a, b)) ==> chrono_text(a, b) is Some,
        forall|a: i64, b: u32| #[trigger] chrono_text(a, b) == Some(s@)
            ==> r == Some((a, b)),
{
    match s.parse::<chrono::DateTime<chrono::Utc>>() {
        Ok(d) => Some((d.timestamp(), d.timestamp_subsec_nanos())),
        Err(_) => None,
    }
}

/// An instant, as whole seconds since the Unix epoch and nanoseconds within
/// the second; always one that chrono can display.
#[derive(Clone, Copy, Debug, PartialEq, Eq, Structural)]
pub struct Timestamp {
    secs: i64,
    nanos: u32,
}

impl View for Timestamp {
    type V = (i64, u32);

    closed spec fn view(&self) -> (i64, u32) {
        (self.secs, self.nanos)
    }
}

impl Timestamp {
    #[verifier::type_invariant]
    spec fn displayable(self) -> bool {
        chrono_text(self.secs, self.nanos) is Some
    }

    /// The instant `secs` seconds and `nanos` nanoseconds after the epoch,
    /// or `None` where chrono has no such instant.
    pub fn new(secs: i64, nanos: u32) -> (r: Option<Timestamp>)
        ensures
            r is Some <==> chrono_text(secs, nanos) is Some,
            r matches Some(t) ==> t@ == (secs, nanos),
    {
        match timestamp_display(secs, nanos) {
            Some(_) => Some(Timestamp { secs, nanos }),
            None => None,
        }
    }

    /// Seconds since the epoch.
    pub fn secs(&self) -> (r: i64)
        ensures
            r == self@.0,
    {
        self.secs
    }

    /// Nanoseconds within the second.
    pub fn nanos(&self) -> (r: u32)
        ensures
            r == self@.1,
    {
        self.nanos
    }

    /// The text chrono displays for this instant.
    pub fn to_text(&self) -> (r: String)
        ensures
            Some(r@) == chrono_text(self@.0, self@.1),
            r@.len() <= 64,
    {
        proof {
            use_type_invariant(self);
        }
        let r = timestamp_display(self.secs, self.nanos);
        r.unwrap()
    }
}

// ---------------------------------------------------------------------------
// Base64 (the standard alphabet, with padding).
// ---------------------------------------------------------------------------

/// The character of a six-bit value in the standard base64 alphabet
/// (`A`–`Z`, `a`–`z`, `0`–`9`, `+`, `/`).
pub open spec fn base64_digit(v: int) -> char {
    if v < 26 {
        (65 + v) as char
    } else if v < 52 {
        (97 + (v - 26)) as char
    } else if v < 62 {
        (48 + (v - 52)) as char
    } else if v == 62 {
        '+'
    } else {
        '/'
    }
}

/// Standard base64 with padding: each three bytes become four characters,
/// and a last group of one or two bytes is padded with `=` to four.
pub open spec fn base64_encoding(b: Seq<u8>) -> Seq<char>
    decreases b.len(),
{
    if b.len() == 0 {
        Seq::empty()
    } else {
        let x = b[0] as int;
        let y = if b.len() > 1 { b[1] as int } else { 0 };
        let z = if b.len() > 2 { b[2] as int } else { 0 };
        if b.len() == 1 {
            seq![base64_digit(x / 4), base64_digit((x % 4) * 16), '=', '=']
        } else if b.len() == 2 {
            seq![base64_digit(x / 4), base64_digit((x % 4) * 16 + y / 16), base64_digit((y % 16) * 4), '=']
        } else {
            seq![
                base64_digit(x / 4),
                base64_digit((x % 4) * 16 + y / 16),
                base64_digit((y % 16) * 4 + z / 64),
                base64_digit(z % 64),
            ] + base64_encoding(b.subrange(3, b.len() as int))
        }
    }
}

/// What `STANDARD.decode` reads from the text's bytes, or `None` where it fails.
pub uninterp spec fn base64_decoding(text: Seq<char>) -> Option<Seq<u8>>;

/// `STANDARD.encode(bytes)`. Claims that the result is the standard,
/// padded base64 of the bytes (`base64_encoding`). The length bound keeps
/// the size computation in the crate from overflowing, where it would panic.
#[verifier::external_body]
fn base64_encode(bytes: &[u8]) -> (r: String)
    requires
        bytes@.len() <= usize::MAX / 4,
    ensures
        r@ == base64_encoding(bytes@),
{
    base64::Engine::encode(&base64::engine::general_purpose::STANDARD, bytes)
}

/// `STANDARD.decode(text)`. Claims that the result is the one
/// `base64_decoding` names, and that the encoding of any bytes decodes back
/// to those bytes.
#[verifier::external_body]
fn base64_decode(text: &str) -> (r: Option<Vec<u8>>)
    ensures
        r is Some <==> base64_decoding(text@) is Some,
        r matches Some(v) ==> base64_decoding(text@) == Some(v@),
        forall|b: Seq<u8>| #[trigger] base64_encoding(b) == text@ ==> r is Some && r.unwrap()@ == b,
{
    base64::Engine::decode(&base64::engine::general_purpose::STANDARD, text).ok()
}

/// `String::from_utf8(bytes).ok()`: the text that the bytes encode, where
/// they are valid UTF-8.
#[verifier::external_body]
fn string_from_utf8(bytes: Vec<u8>) -> (r: Option<String>)
    ensures
        r is Some <==> valid_utf8(bytes@),
        r matches Some(s) ==> s@ == decode_utf8(bytes@),
{
    String::from_utf8(bytes).ok()
}

/// UTF-8 takes at most four bytes per character.
proof fn lemma_utf8_len(chars: Seq<char>)
    ensures
        encode_utf8(chars).len() <= 4 * chars.len(),
    decreases chars.len(),
{
    if chars.len() > 0 {
        lemma_utf8_len(chars.drop_first());
    }
}

// ---------------------------------------------------------------------------
// Pagination cursors.
// ---------------------------------------------------------------------------

/// The cursor that names an instant: the base64 of the UTF-8 bytes of its
/// chrono text.
pub open spec fn cursor_text(t: (i64, u32)) -> Seq<char> {
    base64_encoding(encode_utf8(chrono_text(t.0, t.1).unwrap()))
}

/// The instant that a cursor names, if it names one.
pub open spec fn cursor_instant(cursor: Seq<char>) -> Option<(i64, u32)> {
    match base64_decoding(cursor) {
        None => None,
        Some(bytes) => if valid_utf8(bytes) { chrono_parse(decode_utf8(bytes)) } else { None },
    }
}

/// The cursor for a page that ends at `t`.
pub fn encode_cursor(t: &Timestamp) -> (r: String)
    ensures
        r@ == cursor_text(t@),
{
    let text = t.to_text();
    let bytes = text.as_str().as_bytes();
    proof {
        lemma_utf8_len(text@);
    }
    base64_encode(bytes)
}

/// The text a cursor's decoded bytes hold: `INVALID_CURSOR` where the
/// base64 did not decode (`None`) or the bytes are not UTF-8.
pub fn cursor_text_of(decoded: Option<Vec<u8>>) -> (r: Result<String, ApiError>)
    ensures
        match decoded {
            None => r == Err::<String, ApiError>(ApiError::InvalidCursor),
            Some(b) => if valid_utf8(b@) {
                r matches Ok(s) && s@ == decode_utf8(b@)
            } else {
                r == Err::<String, ApiError>(ApiError::InvalidCursor)
            },
        },
{
    match decoded {
        None => Err(ApiError::InvalidCursor),
        Some(bytes) => match string_from_utf8(bytes) {
            Some(s) => Ok(s),
            None => Err(ApiError::InvalidCursor),
        },
    }
}

/// The instant a cursor names, from what chrono read of its text:
/// `INVALID_CURSOR` where chrono read nothing (`None`) or read an instant
/// it cannot display.
pub fn cursor_from_parsed(parsed: Option<(i64, u32)>) -> (r: Result<Timestamp, ApiError>)
    ensures
        match parsed {
            None => r == Err::<Timestamp, ApiError>(ApiError::InvalidCursor),
            Some((secs, nanos)) => if chrono_text(secs, nanos) is Some {
                r matches Ok(t) && t@ == (secs, nanos)
            } else {
                r == Err::<Timestamp, ApiError>(ApiError::InvalidCursor)
            },
        },
{
    match parsed {
        Some((secs, nanos)) => match Timestamp::new(secs, nanos) {
            Some(t) => Ok(t),
            None => Err(ApiError::InvalidCursor),
        },
        None => Err(ApiError::InvalidCursor),
    }
}

/// Reads a cursor: `INVALID_CURSOR` unless it is base64 of UTF-8 text that
/// chrono reads as an instant. A cursor made by [`encode_cursor`] reads back
/// to the instant it was made from.
pub fn decode_cursor(cursor: &str) -> (r: Result<Timestamp, ApiError>)
    ensures
        match cursor_instant(cursor@) {
            Some(p) => r matches Ok(t) && t@ == p,
            None => r == Err::<Timestamp, ApiError>(ApiError::InvalidCursor),
        },
        forall|t: (i64, u32)| chrono_text(t.0, t.1) is Some
            && #[trigger] cursor_text(t) == cursor@ ==> (r matches Ok(u) && u@ == t),
{
    let decoded = base64_decode(cursor);
    let ghost raw = decoded;
    let text = match cursor_text_of(decoded) {
        Ok(s) => s,
        Err(e) => return Err(e),
    };
    let parsed = timestamp_parse(text.as_str());
    proof {
        assert forall|t: (i64, u32)| chrono_text(t.0, t.1) is Some
            && #[trigger] cursor_text(t) == cursor@ implies parsed == Some(t) by {
            let txt = chrono_text(t.0, t.1).unwrap();
            assert(raw.unwrap()@ == encode_utf8(txt));
            assert(decode_utf8(encode_utf8(txt)) == txt);
            assert(text@ == txt);
            assert(chrono_text(t.0, t.1) == Some(text@));
        }
    }
    cursor_from_parsed(parsed)
}

} // verus!
