//! The addresses of the pages that the windows show, and images as data
//! addresses. What a page is told stands in the query of its address, percent
//! encoded.

use vstd::prelude::*;
use vstd::string::*;
use crate::naming::{decimal, decimal_string, media_type, mime_type};

verus! {

/// The bytes that stand for themselves in a query: the ASCII letters and
/// digits, and `-`, `.`, `_` and `~`.
pub open spec fn is_unreserved(b: u8) -> bool {
    (0x30 <= b && b <= 0x39) || (0x41 <= b && b <= 0x5a) || (0x61 <= b && b <= 0x7a) || b == 0x2d
        || b == 0x2e || b == 0x5f || b == 0x7e
}

/// The sixteen hexadecimal digits, in upper case.
pub open spec fn upper_hex() -> Seq<char> {
    "0123456789ABCDEF"@
}

/// A byte in a query: itself where it is unreserved, else `%` and its two
/// hexadecimal digits.
pub open spec fn percent_byte(b: u8) -> Seq<char> {
    if is_unreserved(b) {
        seq![b as char]
    } else {
        seq!['%', upper_hex()[(b / 16) as int], upper_hex()[(b % 16) as int]]
    }
}

/// Bytes in a query, each by itself.
pub open spec fn percent_encoded(bytes: Seq<u8>) -> Seq<char>
    decreases bytes.len(),
{
    if bytes.len() == 0 {
        Seq::<char>::empty()
    } else {
        percent_encoded(bytes.drop_last()) + percent_byte(bytes.last())
    }
}

/// A text in a query: the bytes of its UTF-8 form, percent encoded.
pub open spec fn query_value(text: Seq<char>) -> Seq<char> {
    percent_encoded(vstd::utf8::encode_utf8(text))
}

/// `urlencoding::encode`: every byte of the text's UTF-8 form is kept where
/// it is an ASCII letter or digit or one of `-`, `.`, `_`, `~`, and becomes `%`
/// with its two upper case hexadecimal digits otherwise.
#[verifier::external_body]
fn url_encode(text: &str) -> (r: String)
    ensures
        r@ == query_value(text@),
{
    urlencoding::encode(text).into_owned()
}

/// A whole number in decimal, with a minus sign where it is negative.
pub open spec fn signed_decimal(n: int) -> Seq<char> {
    if n < 0 {
        "-"@ + decimal((-n) as nat)
    } else {
        decimal(n as nat)
    }
}

/// Writes a whole number in decimal.
pub fn signed_decimal_string(n: i32) -> (r: String)
    ensures
        r@ == signed_decimal(n as int),
{
    if n < 0 {
        let magnitude: u64 = (-(n as i64)) as u64;
        let digits = decimal_string(magnitude);
        String::from_str("-").concat(digits.as_str())
    } else {
        decimal_string(n as u64)
    }
}

/// The address of the rename page for a capture.
pub open spec fn rename_address(filepath: Seq<char>) -> Seq<char> {
    "/rename.html?path="@ + query_value(filepath)
}

/// The address of the rename page for a capture that comes from the editor
/// with its notes.
pub open spec fn rename_address_with_notes(
    filepath: Seq<char>,
    note: Seq<char>,
    burned_note: Seq<char>,
) -> Seq<char> {
    "/rename.html?path="@ + query_value(filepath) + "&note="@ + query_value(note) + "&burnedNote="@
        + query_value(burned_note)
}

/// The address of the page that configures the shortcut of a slot.
pub open spec fn shortcut_config_address(target: Seq<char>, current: Seq<char>, other: Seq<char>)
    -> Seq<char> {
    "/shortcut-config.html?target="@ + query_value(target) + "&current="@ + query_value(current)
        + "&other="@ + query_value(other)
}

/// The address of the editor page for a capture.
pub open spec fn editor_address(
    filepath: Seq<char>,
    padding: i32,
    note: Seq<char>,
    burned_note: Seq<char>,
) -> Seq<char> {
    "/editor.html?path="@ + query_value(filepath) + "&padding="@ + signed_decimal(padding as int)
        + "&note="@ + query_value(note) + "&burnedNote="@ + query_value(burned_note)
}

/// Builds the address of the rename page for a capture.
pub fn rename_url(filepath: &str) -> (r: String)
    ensures
        r@ == rename_address(filepath@),
{
    let mut out = String::from_str("/rename.html?path=");
    let path = url_encode(filepath);
    out.append(path.as_str());
    out
}

/// Builds the address of the rename page for a capture with its notes.
pub fn rename_url_with_notes(filepath: &str, note: &str, burned_note: &str) -> (r: String)
    ensures
        r@ == rename_address_with_notes(filepath@, note@, burned_note@),
{
    let mut out = rename_url(filepath);
    out.append("&note=");
    let encoded_note = url_encode(note);
    out.append(encoded_note.as_str());
    out.append("&burnedNote=");
    let encoded_burned = url_encode(burned_note);
    out.append(encoded_burned.as_str());
    out
}

/// Builds the address of the page that configures a shortcut.
pub fn shortcut_config_url(target: &str, current_shortcut: &str, other_shortcut: &str) -> (r:
    String)
    ensures
        r@ == shortcut_config_address(target@, current_shortcut@, other_shortcut@),
{
    let mut out = String::from_str("/shortcut-config.html?target=");
    let encoded_target = url_encode(target);
    out.append(encoded_target.as_str());
    out.append("&current=");
    let encoded_current = url_encode(current_shortcut);
    out.append(encoded_current.as_str());
    out.append("&other=");
    let encoded_other = url_encode(other_shortcut);
    out.append(encoded_other.as_str());
    out
}

/// Builds the address of the editor page for a capture.
pub fn editor_url(filepath: &str, padding: i32, note: &str, burned_note: &str) -> (r: String)
    ensures
        r@ == editor_address(filepath@, padding, note@, burned_note@),
{
    let mut out = String::from_str("/editor.html?path=");
    let path = url_encode(filepath);
    out.append(path.as_str());
    out.append("&padding=");
    let pad = signed_decimal_string(padding);
    out.append(pad.as_str());
    out.append("&note=");
    let encoded_note = url_encode(note);
    out.append(encoded_note.as_str());
    out.append("&burnedNote=");
    let encoded_burned = url_encode(burned_note);
    out.append(encoded_burned.as_str());
    out
}

/// The sixty-four digits of base 64.
pub open spec fn base64_alphabet() -> Seq<char> {
    "ABCDEFGHIJKLMNOPQRSTUVWXYZabcdefghijklmnopqrstuvwxyz0123456789+/"@
}

/// Bytes in base 64: every three bytes give four digits of six bits each,
/// and one or two bytes left over give two or three digits, filled up to four
/// with `=`.
pub open spec fn base64_encoded(bytes: Seq<u8>) -> Seq<char>
    decreases bytes.len(),
{
    let a = base64_alphabet();
    if bytes.len() == 0 {
        Seq::<char>::empty()
    } else if bytes.len() == 1 {
        seq![a[bytes[0] as int / 4], a[bytes[0] as int % 4 * 16], '=', '=']
    } else if bytes.len() == 2 {
        seq![
            a[bytes[0] as int / 4],
            a[bytes[0] as int % 4 * 16 + bytes[1] as int / 16],
            a[bytes[1] as int % 16 * 4],
            '=',
        ]
    } else {
        seq![
            a[bytes[0] as int / 4],
            a[bytes[0] as int % 4 * 16 + bytes[1] as int / 16],
            a[bytes[1] as int % 16 * 4 + bytes[2] as int / 64],
            a[bytes[2] as int % 64],
        ] + base64_encoded(bytes.subrange(3, bytes.len() as int))
    }
}

/// Whether the base 64 form of so many bytes has a length that the machine
/// can count.
pub open spec fn base64_fits(len: nat) -> bool {
    len / 3 * 4 + (if len % 3 == 0 {
        0int
    } else {
        4int
    }) <= usize::MAX
}

/// `Engine::encode` of `base64::engine::general_purpose::STANDARD`: the
/// bytes in base 64 with the standard alphabet and padding. The call panics
/// where the length of the result overflows, so such inputs are left out.
#[verifier::external_body]
fn base64_encode(bytes: &[u8]) -> (r: String)
    requires
        base64_fits(bytes@.len()),
    ensures
        r@ == base64_encoded(bytes@),
{
    base64::Engine::encode(&base64::engine::general_purpose::STANDARD, bytes)
}

/// An image as a data address.
pub open spec fn data_address(filepath: Seq<char>, bytes: Seq<u8>) -> Seq<char> {
    "data:"@ + media_type(filepath) + ";base64,"@ + base64_encoded(bytes)
}

/// Builds the data address of an image: its media type by the ending of its
/// path, and its bytes in base 64.
pub fn data_url(filepath: &str, bytes: &[u8]) -> (r: String)
    requires
        base64_fits(bytes@.len()),
    ensures
        r@ == data_address(filepath@, bytes@),
{
    let mut out = String::from_str("data:");
    out.append(mime_type(filepath));
    out.append(";base64,");
    let encoded = base64_encode(bytes);
    out.append(encoded.as_str());
    out
}

} // verus!
