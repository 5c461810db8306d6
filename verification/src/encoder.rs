//! Payload encoder: from the bytes of the watched file to the string that is
//! pushed, and from a raw error text to the message that is shown.

use vstd::prelude::*;
use vstd::utf8::{decode_utf8, valid_utf8};

verus! {

/// How the file's bytes are represented in the pushed payload.
#[derive(Clone, Copy, PartialEq, Eq, Debug, Structural)]
pub enum EncodingMode {
    /// The file is sent as the text it holds.
    Text,
    /// The file is sent as the standard base64 of its bytes.
    Base64,
}

/// The message for a file whose bytes are not text.
pub const INVALID_TEXT: &'static str = "stream did not contain valid UTF-8";

/// The pattern of the platform's suffix in an error text: `(os` and what
/// follows it on the line.
pub const OS_SUFFIX: &'static str = "\\(os.*";

/// The standard base64 encoding, with padding, of `bytes`.
pub uninterp spec fn base64_standard(bytes: Seq<u8>) -> Seq<char>;

/// `text` with the first match of the regular expression `pattern` replaced by
/// the expansion of `rep`; `None` where `pattern` is not accepted as a regular
/// expression.
pub uninterp spec fn regex_replaced(pattern: Seq<char>, text: Seq<char>, rep: Seq<char>) -> Option<
    Seq<char>,
>;

#[verifier::external_type_specification]
#[verifier::external_body]
pub struct ExRegexError(regex::Error);

/// Calls `Engine::encode` of the base64 crate on its `STANDARD` engine: the
/// RFC 4648 alphabet with `=` padding. The call computes the output size
/// first and fails only if that overflows `usize`, which four thirds of a
/// slice's length cannot.
#[verifier::external_body]
fn base64_encode(bytes: &Vec<u8>) -> (encoded: String)
    ensures
        encoded@ == base64_standard(bytes@),
{
    base64::Engine::encode(&base64::engine::general_purpose::STANDARD, bytes)
}

/// Calls `String::from_utf8`, which hands the bytes back as a string where
/// they are valid UTF-8 and refuses them where they are not.
#[verifier::external_body]
fn text_from_utf8(bytes: Vec<u8>) -> (decoded: Option<String>)
    ensures
        match decoded {
            Some(s) => valid_utf8(bytes@) && s@ == decode_utf8(bytes@),
            None => !valid_utf8(bytes@),
        },
{
    match String::from_utf8(bytes) {
        Ok(s) => Some(s),
        Err(_) => None,
    }
}

/// Compiles `pattern` with `regex::Regex::new` and, where that succeeds, calls
/// `Regex::replace`, which replaces the leftmost-first match in `text` by
/// `rep`, with `$` references in `rep` expanded. The compile error is handed
/// on as it is.
#[verifier::external_body]
fn replace_first(pattern: &str, text: &str, rep: &str) -> (replaced: Result<String, regex::Error>)
    ensures
        match regex_replaced(pattern@, text@, rep@) {
            Some(t) => replaced matches Ok(s) && s@ == t,
            None => replaced is Err,
        },
{
    match regex::Regex::new(pattern) {
        Ok(re) => Ok(re.replace(text, rep).into_owned()),
        Err(e) => Err(e),
    }
}

/// The payload for `bytes` in `mode`. Base64 takes any bytes; text takes only
/// valid UTF-8, and there is no payload otherwise.
pub open spec fn payload_of(mode: EncodingMode, bytes: Seq<u8>) -> Option<Seq<char>> {
    match mode {
        EncodingMode::Base64 => Some(base64_standard(bytes)),
        EncodingMode::Text => if valid_utf8(bytes) {
            Some(decode_utf8(bytes))
        } else {
            None
        },
    }
}

/// `text` without the platform's suffix. A text is left as it is where the
/// suffix pattern is not accepted.
pub open spec fn stripped(text: Seq<char>) -> Seq<char> {
    match regex_replaced(OS_SUFFIX@, text, Seq::empty()) {
        Some(t) => t,
        None => text,
    }
}

/// Encodes the bytes read from the watched file. In base64 mode every byte
/// sequence has a payload. In text mode the bytes must be valid UTF-8, and
/// the error is the message to show otherwise.
pub fn encode_payload(mode: EncodingMode, bytes: Vec<u8>) -> (payload: Result<String, String>)
    ensures
        match payload_of(mode, bytes@) {
            Some(p) => payload matches Ok(s) && s@ == p,
            None => payload matches Err(m) && m@ == INVALID_TEXT@,
        },
{
    match mode {
        EncodingMode::Base64 => Ok(base64_encode(&bytes)),
        EncodingMode::Text => match text_from_utf8(bytes) {
            Some(s) => Ok(s),
            None => Err(INVALID_TEXT.to_owned()),
        },
    }
}

/// Turns the raw text of an operating-system error into the message that is
/// shown: the text without its platform suffix.
pub fn nice_err(text: &str) -> (message: String)
    ensures
        message@ == stripped(text@),
{
    proof {
        reveal_strlit("");
        assert(""@ =~= Seq::<char>::empty());
    }
    match replace_first(OS_SUFFIX, text, "") {
        Ok(s) => s,
        Err(_) => text.to_owned(),
    }
}

/// In base64 mode every file has a payload, whatever its bytes: the standard
/// base64 of exactly those bytes.
pub proof fn law_base64_takes_any_bytes(bytes: Seq<u8>)
    ensures
        payload_of(EncodingMode::Base64, bytes) == Some(base64_standard(bytes)),
{
}

/// In text mode a file has a payload exactly where its bytes are valid UTF-8,
/// and the payload then encodes back to the same bytes.
pub proof fn law_text_payload_is_the_file(bytes: Seq<u8>)
    ensures
        payload_of(EncodingMode::Text, bytes) is Some <==> valid_utf8(bytes),
        valid_utf8(bytes) ==> vstd::utf8::encode_utf8(payload_of(EncodingMode::Text, bytes)->0)
            == bytes,
{
    if valid_utf8(bytes) {
        vstd::utf8::decode_utf8_encode_utf8(bytes);
    }
}

} // verus!
