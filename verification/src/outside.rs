//! What the library has from other crates and from parts of the standard
//! library without a specification. Each item says what is relied on.

use crate::encoding;
use crate::span;
use crate::text;
use base64::Engine;
use base64::engine::general_purpose::{STANDARD, URL_SAFE_NO_PAD};
use subtle::ConstantTimeEq;
use time::format_description::well_known::Rfc3339;
use vstd::prelude::*;

verus! {

/// `std::time::Instant`, carried through unread.
#[verifier::external_type_specification]
#[verifier::external_body]
pub struct ExInstant(std::time::Instant);

/// `std::time::Instant::now`. Nothing is relied on.
#[verifier::external_body]
pub(crate) fn instant_now() -> std::time::Instant {
    std::time::Instant::now()
}

/// `std::time::Instant::elapsed`, in nanoseconds: no more than a `Duration` can
/// hold. How much time went by is not stated.
#[verifier::external_body]
pub(crate) fn nanos_since(origin: &std::time::Instant) -> (r: u128)
    ensures
        r <= span::MAX_SPAN_NANOS,
{
    origin.elapsed().as_nanos()
}

/// `getrandom::fill` on twelve bytes: the bytes, or nothing where the system's
/// source failed. Nothing is relied on about the bytes.
#[verifier::external_body]
pub(crate) fn random_identity() -> Option<[u8; 12]> {
    let mut bytes = [0u8; 12];
    match getrandom::fill(&mut bytes) {
        Ok(()) => Some(bytes),
        Err(_) => None,
    }
}

/// `base64::Engine::encode` with the URL-safe alphabet and no padding.
#[verifier::external_body]
pub(crate) fn encode_url_base64(bytes: &[u8; 12]) -> (r: String)
    ensures
        r@ == encoding::url_base64_text(bytes@),
{
    URL_SAFE_NO_PAD.encode(bytes)
}

/// `base64::Engine::encode` with the standard alphabet and padding.
#[verifier::external_body]
pub(crate) fn encode_standard_base64(bytes: &Vec<u8>) -> (r: String)
    requires
        bytes@.len() <= isize::MAX / 4 * 3,
    ensures
        r@ == encoding::standard_base64_text(bytes@),
{
    STANDARD.encode(bytes)
}

/// `base64::Engine::decode` with the standard alphabet, which asks for the
/// padding and for zeros in the bits behind the last byte: it gives the bytes of
/// which a text is the text, and refuses every other text.
#[verifier::external_body]
pub(crate) fn decode_standard_base64(text: &str) -> (r: Option<Vec<u8>>)
    ensures
        match r {
            Some(bytes) => text@ == encoding::standard_base64_text(bytes@),
            None => forall|bytes: Seq<u8>| text@ != #[trigger] encoding::standard_base64_text(bytes),
        },
{
    STANDARD.decode(text).ok()
}

/// How std's `Debug` of `str` writes a text, quotation marks included.
pub uninterp spec fn debug_str(text: Seq<char>) -> Seq<char>;

/// `Debug` of `str` in std, through `format!`.
#[verifier::external_body]
pub(crate) fn debug_text_of(text: &str) -> (r: String)
    ensures
        r@ == debug_str(text@),
{
    format!("{text:?}")
}

/// How std's `Debug` of `Duration` writes the seconds and nanoseconds.
pub uninterp spec fn debug_duration(seconds: u64, nanos: u32) -> Seq<char>;

/// `Debug` of `std::time::Duration`, through `format!`.
#[verifier::external_body]
pub(crate) fn debug_duration_text(seconds: u64, nanos: u32) -> (r: String)
    requires
        nanos < 1_000_000_000,
    ensures
        r@ == debug_duration(seconds, nanos),
{
    let duration = std::time::Duration::new(seconds, nanos);
    format!("{duration:?}")
}

/// `std::sync::Arc::clone`: another pointer to the same value.
#[verifier::external_body]
pub(crate) fn share<T>(shared: &std::sync::Arc<T>) -> (r: std::sync::Arc<T>)
    ensures
        r == *shared,
{
    std::sync::Arc::clone(shared)
}

/// `subtle::ConstantTimeEq::ct_eq` on byte slices: whether they hold the same
/// bytes. That it takes the same time whatever they hold is not stated.
#[verifier::external_body]
pub(crate) fn same_bytes(a: &[u8], b: &[u8]) -> (r: bool)
    ensures
        r == (a@ == b@),
{
    bool::from(a.ct_eq(b))
}

/// The texts that bytes list as JSON, where they are a JSON array of strings.
pub uninterp spec fn json_texts(bytes: Seq<u8>) -> Option<Seq<Seq<char>>>;

/// `serde_json::from_slice` for a list of texts: the list, or nothing where the
/// bytes are not one. Which bytes list which texts is JSON's matter and is not
/// stated.
#[verifier::external_body]
pub(crate) fn parse_texts(bytes: &[u8]) -> (r: Option<Vec<String>>)
    ensures
        r is Some <==> json_texts(bytes@) is Some,
        r matches Some(found) ==> json_texts(bytes@) == Some(text::texts(found@)),
{
    serde_json::from_slice::<Vec<String>>(bytes).ok()
}

/// The RFC 3339 text of a moment so many nanoseconds after 1970, where `time`
/// has one.
pub uninterp spec fn rfc3339_of(nanos: i128) -> Option<Seq<char>>;

/// `time::OffsetDateTime::from_unix_timestamp_nanos`, written by
/// `OffsetDateTime::format` as RFC 3339.
#[verifier::external_body]
pub(crate) fn rfc3339_text(nanos: i128) -> (r: Option<String>)
    ensures
        r is Some <==> rfc3339_of(nanos) is Some,
        r matches Some(text) ==> rfc3339_of(nanos) == Some(text@),
{
    let moment = time::OffsetDateTime::from_unix_timestamp_nanos(nanos).ok()?;
    moment.format(&Rfc3339).ok()
}

} // verus!
