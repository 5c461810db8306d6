//! Destination resolver: from a destination identifier and a file name to the
//! URL of the basket that receives the file.

use vstd::prelude::*;

verus! {

/// The service under which every basket lives, up to and including the slash
/// before the destination identifier.
pub const SERVICE_PREFIX: &'static str = "https://getpantry.cloud/apiv1/pantry/";

/// The URL of `basket_name` under `pantry_id`; empty where either is empty.
pub open spec fn live_data_url(pantry_id: Seq<char>, basket_name: Seq<char>) -> Seq<char> {
    if pantry_id.len() > 0 && basket_name.len() > 0 {
        SERVICE_PREFIX@ + pantry_id + seq!['/'] + basket_name
    } else {
        Seq::empty()
    }
}

/// Joins the service, the destination identifier and the basket name. With no
/// destination or no basket there is no URL, and the result is empty.
pub fn make_live_data_url(pantry_id: String, basket_name: String) -> (url: String)
    ensures
        url@ == live_data_url(pantry_id@, basket_name@),
{
    if !pantry_id.as_str().is_empty() && !basket_name.as_str().is_empty() {
        let mut url = SERVICE_PREFIX.to_owned();
        url.append(pantry_id.as_str());
        proof {
            reveal_strlit("/");
        }
        url.append("/");
        url.append(basket_name.as_str());
        assert(url@ =~= SERVICE_PREFIX@ + pantry_id@ + seq!['/'] + basket_name@);
        url
    } else {
        String::new()
    }
}

/// True of the bytes that stand for themselves in a basket name: the ASCII
/// digits and letters, and `-`, `.`, `_`, `~`.
pub open spec fn is_unreserved(b: u8) -> bool {
    ||| 0x30 <= b <= 0x39
    ||| 0x41 <= b <= 0x5a
    ||| 0x61 <= b <= 0x7a
    ||| b == 0x2d
    ||| b == 0x2e
    ||| b == 0x5f
    ||| b == 0x7e
}

/// The upper-case hexadecimal digit for `d`, where `0 <= d < 16`.
pub open spec fn hex_digit(d: int) -> char {
    if d < 10 {
        ((0x30 + d) as u8) as char
    } else {
        ((0x41 + d - 10) as u8) as char
    }
}

/// What one byte becomes: itself where it is unreserved, else `%` and its two
/// hexadecimal digits.
pub open spec fn escape_byte(b: u8) -> Seq<char> {
    if is_unreserved(b) {
        seq![b as char]
    } else {
        seq!['%', hex_digit(b as int / 16), hex_digit(b as int % 16)]
    }
}

/// The escapes of `bytes`, byte by byte, in order.
pub open spec fn escaped(bytes: Seq<u8>) -> Seq<char>
    decreases bytes.len(),
{
    if bytes.len() == 0 {
        Seq::empty()
    } else {
        escape_byte(bytes[0]) + escaped(bytes.drop_first())
    }
}

/// The percent-encoding of `text`: the escapes of its UTF-8 bytes.
pub open spec fn percent_encoded(text: Seq<char>) -> Seq<char> {
    escaped(vstd::utf8::encode_utf8(text))
}

/// The basket that a file of this name goes to. A file that is not there has
/// no basket, which the empty name stands for.
pub open spec fn basket_name(file_name: Seq<char>, on_disk: bool) -> Seq<char> {
    if on_disk {
        percent_encoded(file_name)
    } else {
        Seq::empty()
    }
}

/// The URL that `file_name` is pushed to for `destination_id`.
pub open spec fn resolved_url(destination_id: Seq<char>, file_name: Seq<char>) -> Seq<char> {
    live_data_url(destination_id, percent_encoded(file_name))
}

/// Calls `urlencoding::encode`, which walks the UTF-8 bytes of `text`, keeps
/// each unreserved byte and writes every other byte as `%` followed by its
/// high and low four bits as upper-case hexadecimal digits.
#[verifier::external_body]
fn percent_encode(text: &str) -> (encoded: String)
    ensures
        encoded@ == percent_encoded(text@),
{
    urlencoding::encode(text).into_owned()
}

/// The basket name for a watched file: its percent-encoded name, or the empty
/// string where the file does not exist.
pub fn get_basket_name(file_name: &str, on_disk: bool) -> (name: String)
    ensures
        name@ == basket_name(file_name@, on_disk),
{
    if on_disk {
        percent_encode(file_name)
    } else {
        String::new()
    }
}

/// The URL for a destination and a file name. It depends on nothing but the
/// two arguments, and is empty where either of them is empty.
pub fn resolve(destination_id: &str, file_name: &str) -> (url: String)
    ensures
        url@ == resolved_url(destination_id@, file_name@),
        url@.len() == 0 <==> destination_id@.len() == 0 || file_name@.len() == 0,
{
    proof {
        law_resolution_empty(destination_id@, file_name@);
    }
    make_live_data_url(destination_id.to_owned(), percent_encode(file_name))
}

/// An escape is never empty, and holds nothing but unreserved characters, `%`
/// and hexadecimal digits.
pub proof fn lemma_escape_byte(b: u8)
    ensures
        1 <= escape_byte(b).len() <= 3,
        forall|i: int| 0 <= i < escape_byte(b).len() ==> is_url_safe(#[trigger] escape_byte(b)[i]),
{
}

/// True of the characters that a percent-encoded name can hold.
pub open spec fn is_url_safe(c: char) -> bool {
    ||| c == '%'
    ||| (c as u32) < 128 && is_unreserved(c as u8)
}

/// A percent-encoded name is empty only for the empty name.
pub proof fn lemma_percent_encoded_len(text: Seq<char>)
    ensures
        percent_encoded(text).len() == 0 <==> text.len() == 0,
{
    if text.len() > 0 {
        let bytes = vstd::utf8::encode_utf8(text);
        assert(vstd::utf8::encode_scalar(text[0] as u32).len() >= 1);
        assert(bytes.len() >= 1);
        lemma_escape_byte(bytes[0]);
    }
}

/// Every character of a percent-encoded name is safe in a URL path.
pub proof fn law_basket_name_is_url_safe(bytes: Seq<u8>)
    ensures
        forall|i: int| 0 <= i < escaped(bytes).len() ==> is_url_safe(#[trigger] escaped(bytes)[i]),
    decreases bytes.len(),
{
    if bytes.len() > 0 {
        let head = escape_byte(bytes[0]);
        let tail = escaped(bytes.drop_first());
        lemma_escape_byte(bytes[0]);
        law_basket_name_is_url_safe(bytes.drop_first());
        assert forall|i: int| 0 <= i < escaped(bytes).len() implies is_url_safe(
            #[trigger] escaped(bytes)[i],
        ) by {
            if i < head.len() {
                assert(escaped(bytes)[i] == head[i]);
            } else {
                assert(escaped(bytes)[i] == tail[i - head.len()]);
            }
        }
    }
}

/// Resolution is a function of its two inputs: equal inputs give equal URLs.
pub proof fn law_resolution_idempotent(
    id1: Seq<char>,
    name1: Seq<char>,
    id2: Seq<char>,
    name2: Seq<char>,
)
    requires
        id1 == id2,
        name1 == name2,
    ensures
        resolved_url(id1, name1) == resolved_url(id2, name2),
{
}

/// The URL is empty exactly where the destination or the file name is.
pub proof fn law_resolution_empty(destination_id: Seq<char>, file_name: Seq<char>)
    ensures
        resolved_url(destination_id, file_name).len() == 0 <==> destination_id.len() == 0
            || file_name.len() == 0,
{
    lemma_percent_encoded_len(file_name);
}

} // verus!
