//! What the `http` crate accepts as a header name, a header value and a status
//! code.
//!
//! The rules are those of the `http` crate, which is asked each time: nothing
//! here decides what is valid.

use vstd::prelude::*;
use vstd::utf8::encode_utf8;

verus! {

/// What [`http::HeaderName::from_bytes`] makes of the bytes of a text: the name
/// in its canonical form, which is in lower case, or the message of the error
/// that refuses it.
pub uninterp spec fn parsed_header_name(name: Seq<char>) -> Result<Seq<char>, Seq<char>>;

/// The message with which the `http` crate refuses a text as a header value.
pub uninterp spec fn header_value_refusal(value: Seq<char>) -> Seq<char>;

/// The message with which the `http` crate refuses to read the bytes of a
/// header value as text.
pub uninterp spec fn header_text_refusal(value: Seq<u8>) -> Seq<char>;

/// A byte that may stand in a header value: a tab, or anything from the space
/// on but the delete character.
pub open spec fn is_value_byte(byte: u8) -> bool {
    byte >= 32 && byte != 127 || byte == 9
}

/// A byte of a header value that can be read as text: a tab, or a visible
/// ASCII character.
pub open spec fn is_text_byte(byte: u8) -> bool {
    byte >= 32 && byte < 127 || byte == 9
}

/// Every byte of `value` may stand in a header value.
pub open spec fn is_header_value(value: Seq<u8>) -> bool {
    forall|i: int| 0 <= i < value.len() ==> is_value_byte(#[trigger] value[i])
}

/// Every byte of `value` can be read as text.
pub open spec fn is_header_text(value: Seq<u8>) -> bool {
    forall|i: int| 0 <= i < value.len() ==> is_text_byte(#[trigger] value[i])
}

/// A status code that HTTP knows: three digits, the first of which is not 0.
pub open spec fn is_status_code(status: u16) -> bool {
    100 <= status <= 999
}

/// Asks [`http::HeaderName::from_bytes`] for the canonical form of `name`.
///
/// The contract gives what the call answers a name of its own and claims
/// nothing more of it: the same text always gets the same answer.
#[verifier::external_body]
pub(crate) fn parse_header_name(name: &str) -> (parsed: Result<String, String>)
    ensures
        match parsed {
            Ok(canonical) => parsed_header_name(name@) == Ok::<Seq<char>, Seq<char>>(canonical@),
            Err(refusal) => parsed_header_name(name@) == Err::<Seq<char>, Seq<char>>(refusal@),
        },
{
    match ::http::HeaderName::from_bytes(name.as_bytes()) {
        Ok(parsed) => Ok(parsed.as_str().to_string()),
        Err(error) => Err(error.to_string()),
    }
}

/// Asks [`http::HeaderValue::from_bytes`] whether the bytes of `value` make a
/// header value.
///
/// The contract claims what the crate documents: the bytes are accepted
/// exactly when each is a tab or at least 32 and not 127, and the value then
/// holds these very bytes. Of the message of a refusal it claims only that it
/// depends on nothing but the text.
#[verifier::external_body]
pub(crate) fn parse_header_value(value: &str) -> (parsed: Result<Vec<u8>, String>)
    ensures
        parsed is Ok <==> is_header_value(encode_utf8(value@)),
        parsed matches Ok(bytes) ==> bytes@ == encode_utf8(value@),
        parsed matches Err(refusal) ==> refusal@ == header_value_refusal(value@),
{
    match ::http::HeaderValue::from_bytes(value.as_bytes()) {
        Ok(parsed) => Ok(parsed.as_bytes().to_vec()),
        Err(error) => Err(error.to_string()),
    }
}

/// Asks [`http::HeaderValue::to_str`] for the bytes of a header value as text.
/// The value to ask is made of the bytes by [`http::HeaderValue::from_bytes`],
/// which refuses no byte that `to_str` accepts.
///
/// The contract claims what the crate documents: there is a text exactly when
/// each byte is a tab or a visible ASCII character, and the bytes of the text
/// are then these very bytes. Of the message of a refusal it claims only that
/// it depends on nothing but the bytes.
#[verifier::external_body]
pub(crate) fn header_value_text(value: &Vec<u8>) -> (text: Result<String, String>)
    ensures
        text is Ok <==> is_header_text(value@),
        text matches Ok(read) ==> encode_utf8(read@) == value@,
        text matches Err(refusal) ==> refusal@ == header_text_refusal(value@),
{
    match ::http::HeaderValue::from_bytes(value) {
        Ok(parsed) => match parsed.to_str() {
            Ok(read) => Ok(read.to_string()),
            Err(error) => Err(error.to_string()),
        },
        Err(error) => Err(error.to_string()),
    }
}

/// Asks [`http::StatusCode::from_u16`] whether `status` is a status code.
///
/// The contract claims what the crate documents: the codes from 100 to 999 are
/// accepted and no others.
#[verifier::external_body]
pub(crate) fn accepts_status_code(status: u16) -> (accepted: bool)
    ensures
        accepted == is_status_code(status),
{
    ::http::StatusCode::from_u16(status).is_ok()
}

} // verus!
