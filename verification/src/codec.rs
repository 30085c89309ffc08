//! Encodings and digests computed by other crates.
//!
//! Each function here makes one call and is trusted: Verus believes its
//! contract. Where the result is too large to write down, the contract names
//! it, so that callers can say exactly what they hand on.

use base64::Engine;
use vstd::prelude::*;
use vstd::utf8::{decode_utf8, valid_utf8};

verus! {

/// A JSON document of `serde_json`. The library carries such a document
/// through without looking into it.
#[verifier::external_type_specification]
#[verifier::external_body]
pub struct ExJsonValue(serde_json::Value);

/// The standard base64 encoding, with padding, of a sequence of bytes.
pub uninterp spec fn base64_standard(bytes: Seq<u8>) -> Seq<char>;

/// The SHA-256 digest of a sequence of bytes.
pub uninterp spec fn sha256_digest(bytes: Seq<u8>) -> Seq<u8>;

/// The lower-case form of a text, by the Unicode rules that the standard
/// library follows.
pub uninterp spec fn lowercased(text: Seq<char>) -> Seq<char>;

/// The name and value pairs in the query of a URL; none where the text is not
/// an absolute URL.
pub uninterp spec fn url_query_pairs_of(url: Seq<char>) -> Option<Seq<(Seq<char>, Seq<char>)>>;

/// A URL written without its query; none where the text is not an absolute
/// URL.
pub uninterp spec fn url_without_query_of(url: Seq<char>) -> Option<Seq<char>>;

/// The lower-case hexadecimal digit of a value below sixteen.
pub open spec fn hex_digit(value: int) -> char {
    if value == 0 {
        '0'
    } else if value == 1 {
        '1'
    } else if value == 2 {
        '2'
    } else if value == 3 {
        '3'
    } else if value == 4 {
        '4'
    } else if value == 5 {
        '5'
    } else if value == 6 {
        '6'
    } else if value == 7 {
        '7'
    } else if value == 8 {
        '8'
    } else if value == 9 {
        '9'
    } else if value == 10 {
        'a'
    } else if value == 11 {
        'b'
    } else if value == 12 {
        'c'
    } else if value == 13 {
        'd'
    } else if value == 14 {
        'e'
    } else {
        'f'
    }
}

/// The lower-case hexadecimal form of a sequence of bytes: two digits for
/// each byte, the high one first.
pub open spec fn hex_lower(bytes: Seq<u8>) -> Seq<char> {
    Seq::new(
        2 * bytes.len(),
        |i: int|
            if i % 2 == 0 {
                hex_digit(bytes[i / 2] as int / 16)
            } else {
                hex_digit(bytes[i / 2] as int % 16)
            },
    )
}

/// The pairs of a list of owned pairs, as texts.
pub open spec fn pair_texts(pairs: Seq<(String, String)>) -> Seq<(Seq<char>, Seq<char>)> {
    Seq::new(pairs.len(), |i: int| (pairs[i].0@, pairs[i].1@))
}

/// The pairs of an optional list of owned pairs, as texts.
pub open spec fn optional_pair_texts(pairs: Option<Vec<(String, String)>>) -> Option<
    Seq<(Seq<char>, Seq<char>)>,
> {
    match pairs {
        Some(list) => Some(pair_texts(list@)),
        None => None,
    }
}

/// The text of an optional string.
pub open spec fn optional_text(text: Option<String>) -> Option<Seq<char>> {
    match text {
        Some(s) => Some(s@),
        None => None,
    }
}

/// `encode` of `base64`'s standard engine. Trusted: the result is the
/// standard base64 encoding of the bytes. The call fails where the length of
/// the encoding does not fit the machine, so such inputs are left out.
#[verifier::external_body]
pub(crate) fn base64_encode(bytes: &[u8]) -> (encoded: String)
    requires
        bytes@.len() / 3 * 4 + 4 <= usize::MAX,
    ensures
        encoded@ == base64_standard(bytes@),
{
    base64::engine::general_purpose::STANDARD.encode(bytes)
}

/// `digest` of `ring` with SHA-256. Trusted: the result is the SHA-256 digest
/// of the bytes. The call fails where the length of the input in bits does
/// not fit 64 bits, so such inputs are left out.
#[verifier::external_body]
pub(crate) fn sha256(bytes: &[u8]) -> (digest: Vec<u8>)
    requires
        bytes@.len() <= 0x1FFF_FFFF_FFFF_FFFF,
    ensures
        digest@ == sha256_digest(bytes@),
{
    ring::digest::digest(&ring::digest::SHA256, bytes).as_ref().to_vec()
}

/// `encode` of `hex`. Trusted: the result holds two lower-case hexadecimal
/// digits for each byte, in order.
#[verifier::external_body]
pub(crate) fn hex_encode(bytes: &[u8]) -> (encoded: String)
    ensures
        encoded@ == hex_lower(bytes@),
{
    hex::encode(bytes)
}

/// `str::to_lowercase` of the standard library. Trusted: the result is the
/// lower-case form of the text.
#[verifier::external_body]
pub(crate) fn to_lowercase(text: &str) -> (lower: String)
    ensures
        lower@ == lowercased(text@),
{
    text.to_lowercase()
}

/// `query_pairs` of `url`, on the URL that the text parses to. Trusted: the
/// result holds the decoded pairs of the query in order, and is none where
/// the text is not an absolute URL.
#[verifier::external_body]
pub(crate) fn url_query_pairs(url: &str) -> (pairs: Option<Vec<(String, String)>>)
    ensures
        optional_pair_texts(pairs) == url_query_pairs_of(url@),
{
    let parsed = url::Url::parse(url).ok()?;
    Some(parsed.query_pairs().map(|(key, value)| (key.into_owned(), value.into_owned())).collect())
}

/// `set_query` of `url` with no query, on the URL that the text parses to.
/// Trusted: the result is that URL written without its query, and is none
/// where the text is not an absolute URL.
#[verifier::external_body]
pub(crate) fn url_without_query(url: &str) -> (stripped: Option<String>)
    ensures
        optional_text(stripped) == url_without_query_of(url@),
{
    let mut parsed = url::Url::parse(url).ok()?;
    parsed.set_query(None);
    Some(parsed.to_string())
}

/// `String::from_utf8` of the standard library. Trusted: the result is the
/// text that the bytes encode, and there is none exactly when the bytes are
/// not UTF-8.
#[verifier::external_body]
pub(crate) fn utf8_text(bytes: Vec<u8>) -> (text: Option<String>)
    ensures
        text is Some <==> valid_utf8(bytes@),
        text matches Some(s) ==> s@ == decode_utf8(bytes@),
{
    String::from_utf8(bytes).ok()
}

/// `from_slice` of `serde_json`, read as a document. Trusted: nothing is
/// claimed of the document; there is none where the bytes are not JSON.
#[verifier::external_body]
pub(crate) fn parse_json(bytes: &[u8]) -> (document: Option<serde_json::Value>) {
    serde_json::from_slice::<serde_json::Value>(bytes).ok()
}

} // verus!
