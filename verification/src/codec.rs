//! Base64 text and RFC 3339 timestamps, as the `base64` and `time` crates write them.
//!
//! Nothing in this file is proved. Each wrapper states what the library takes
//! for granted about the one outside function it calls.

use base64::Engine;
use vstd::prelude::*;

verus! {

/// `base64::DecodeError`, which is handed on unread.
#[verifier::external_type_specification]
#[verifier::external_body]
pub struct ExDecodeError(base64::DecodeError);

/// The standard base64 text, with padding, of some bytes.
pub uninterp spec fn base64_text(bytes: Seq<u8>) -> Seq<char>;

/// The bytes that a text is the standard base64 encoding of, if it is one.
pub uninterp spec fn base64_bytes(text: Seq<char>) -> Option<Seq<u8>>;

/// The RFC 3339 text of the UTC instant a number of whole seconds after the
/// Unix epoch, if that instant has one.
pub uninterp spec fn rfc3339_text(unix_seconds: int) -> Option<Seq<char>>;

/// `base64::Engine::encode` of `base64::prelude::BASE64_STANDARD`: the text
/// of the bytes, which decodes to the same bytes again.
#[verifier::external_body]
pub(crate) fn encode_base64(bytes: &Vec<u8>) -> (text: String)
    ensures
        text@ == base64_text(bytes@),
        base64_bytes(text@) == Some(bytes@),
{
    base64::prelude::BASE64_STANDARD.encode(bytes)
}

/// `base64::Engine::decode` of `base64::prelude::BASE64_STANDARD`: the bytes
/// of a text that is valid base64, and an error for any other text.
#[verifier::external_body]
pub(crate) fn decode_base64(text: &str) -> (out: Result<Vec<u8>, base64::DecodeError>)
    ensures
        match out {
            Ok(bytes) => base64_bytes(text@) == Some(bytes@),
            Err(_) => base64_bytes(text@) is None,
        },
{
    base64::prelude::BASE64_STANDARD.decode(text)
}

/// `time::OffsetDateTime::format` with `Rfc3339`, on the instant that
/// `time::OffsetDateTime::from_unix_timestamp` makes of whole seconds: the
/// text, or nothing where the instant cannot be made or written.
#[verifier::external_body]
pub(crate) fn format_rfc3339(unix_seconds: i64) -> (text: Option<String>)
    ensures
        match text {
            Some(written) => rfc3339_text(unix_seconds as int) == Some(written@),
            None => rfc3339_text(unix_seconds as int) is None,
        },
{
    let instant = time::OffsetDateTime::from_unix_timestamp(unix_seconds).ok()?;
    instant.format(&time::format_description::well_known::Rfc3339).ok()
}

} // verus!
