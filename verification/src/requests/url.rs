//! Escaping text for the query of a request address.
//!
//! Both escapes work byte by byte on the UTF-8 form of the text: a byte
//! that is safe stands for itself, any other becomes a percent sign and its
//! two hexadecimal digits in upper case.  They differ in which bytes are
//! safe.

use vstd::prelude::*;
use vstd::utf8::encode_utf8;

verus! {

/// The character for the hexadecimal digit `digit`, in upper case.
pub open spec fn spec_hex_digit(digit: nat) -> char
    recommends
        digit < 16,
{
    if digit < 10 {
        (('0' as u8) + digit) as u8 as char
    } else {
        (('A' as u8) + digit - 10) as u8 as char
    }
}

/// Whether `byte` is an ASCII letter or digit.
pub open spec fn spec_is_alphanumeric(byte: u8) -> bool {
    ('0' as u8 <= byte <= '9' as u8) || ('A' as u8 <= byte <= 'Z' as u8) || ('a' as u8 <= byte
        <= 'z' as u8)
}

/// Whether `byte` is an ASCII letter or digit or one of `-`, `.`, `_`
/// and `~`.
pub open spec fn spec_is_unreserved(byte: u8) -> bool {
    spec_is_alphanumeric(byte) || byte == '-' as u8 || byte == '.' as u8 || byte == '_' as u8
        || byte == '~' as u8
}

/// One byte escaped: itself where it is safe, else `%` and two digits.
pub open spec fn spec_escape_byte(byte: u8, safe: bool) -> Seq<char> {
    if safe {
        seq![byte as char]
    } else {
        seq!['%', spec_hex_digit((byte / 16) as nat), spec_hex_digit((byte % 16) as nat)]
    }
}

/// `bytes` with every byte that is not a letter or digit escaped.
pub open spec fn spec_percent_encode(bytes: Seq<u8>) -> Seq<char>
    decreases bytes.len(),
{
    if bytes.len() == 0 {
        Seq::empty()
    } else {
        spec_percent_encode(bytes.drop_last()) + spec_escape_byte(
            bytes.last(),
            spec_is_alphanumeric(bytes.last()),
        )
    }
}

/// `bytes` with every byte escaped that is not a letter, a digit or one of
/// `-`, `.`, `_` and `~`.
pub open spec fn spec_url_encode(bytes: Seq<u8>) -> Seq<char>
    decreases bytes.len(),
{
    if bytes.len() == 0 {
        Seq::empty()
    } else {
        spec_url_encode(bytes.drop_last()) + spec_escape_byte(
            bytes.last(),
            spec_is_unreserved(bytes.last()),
        )
    }
}

/// `percent_encoding::utf8_percent_encode` with the set
/// `NON_ALPHANUMERIC`, written out as a string.  The crate escapes every
/// byte that is not ASCII and every ASCII byte in the set, which holds all
/// of them but the letters and digits; it takes the escape of a byte from
/// a table of `%00` to `%FF`.
#[verifier::external_body]
pub(crate) fn percent_encode_text(text: &str) -> (encoded: String)
    ensures
        encoded@ == spec_percent_encode(encode_utf8(text@)),
{
    percent_encoding::utf8_percent_encode(text, percent_encoding::NON_ALPHANUMERIC).to_string()
}

/// `urlencoding::encode`, as an owned string.  The crate copies runs of
/// letters, digits, `-`, `.`, `_` and `~` and writes every other byte as
/// `%` and two upper-case hexadecimal digits.
#[verifier::external_body]
pub(crate) fn url_encode_text(text: &str) -> (encoded: String)
    ensures
        encoded@ == spec_url_encode(encode_utf8(text@)),
{
    urlencoding::encode(text).into_owned()
}

} // verus!
