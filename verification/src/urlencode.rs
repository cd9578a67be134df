//! Request parameters in the form that a query string takes
//! (`application/x-www-form-urlencoded`).

use vstd::prelude::*;
use vstd::utf8::encode_utf8;

use crate::text::pairs;

verus! {

/// The bytes that are written as they are: letters, digits, `*`, `-`, `.`
/// and `_`.
pub open spec fn plain_byte(b: u8) -> bool {
    ||| b == 0x2A
    ||| b == 0x2D
    ||| b == 0x2E
    ||| b == 0x5F
    ||| 0x30 <= b <= 0x39
    ||| 0x41 <= b <= 0x5A
    ||| 0x61 <= b <= 0x7A
}

/// The upper-case hexadecimal digit for a value below sixteen.
pub open spec fn hex_digit(n: int) -> char
    recommends
        0 <= n < 16,
{
    if n == 0 {
        '0'
    } else if n == 1 {
        '1'
    } else if n == 2 {
        '2'
    } else if n == 3 {
        '3'
    } else if n == 4 {
        '4'
    } else if n == 5 {
        '5'
    } else if n == 6 {
        '6'
    } else if n == 7 {
        '7'
    } else if n == 8 {
        '8'
    } else if n == 9 {
        '9'
    } else if n == 10 {
        'A'
    } else if n == 11 {
        'B'
    } else if n == 12 {
        'C'
    } else if n == 13 {
        'D'
    } else if n == 14 {
        'E'
    } else {
        'F'
    }
}

/// One byte in encoded form: itself where it is plain, `+` for a space, and
/// otherwise `%` with its two hexadecimal digits.
pub open spec fn encoded_byte(b: u8) -> Seq<char> {
    if plain_byte(b) {
        seq![b as char]
    } else if b == 0x20 {
        seq!['+']
    } else {
        seq!['%', hex_digit(b as int / 16), hex_digit(b as int % 16)]
    }
}

/// A list of bytes in encoded form.
pub open spec fn encoded_bytes(bytes: Seq<u8>) -> Seq<char>
    decreases bytes.len(),
{
    if bytes.len() == 0 {
        Seq::empty()
    } else {
        encoded_bytes(bytes.drop_last()) + encoded_byte(bytes.last())
    }
}

/// A text in encoded form: the encoding of its UTF-8 bytes.
pub open spec fn encoded_text(s: Seq<char>) -> Seq<char> {
    encoded_bytes(encode_utf8(s))
}

/// A list of (name, value) pairs as a query string: each pair as
/// `name=value` in encoded form, the pairs joined by `&`.
pub open spec fn form_encoded(params: Seq<(Seq<char>, Seq<char>)>) -> Seq<char>
    decreases params.len(),
{
    if params.len() == 0 {
        Seq::empty()
    } else {
        let pair = encoded_text(params.last().0) + seq!['='] + encoded_text(params.last().1);
        if params.len() == 1 {
            pair
        } else {
            form_encoded(params.drop_last()) + seq!['&'] + pair
        }
    }
}

/// The error type of the `serde_urlencoded` crate's serializer.
#[verifier::external_type_specification]
#[verifier::external_body]
pub struct ExUrlEncodeError(serde_urlencoded::ser::Error);

/// Calls `serde_urlencoded::to_string` on a list of pairs of strings. The
/// crate hands each pair to `form_urlencoded`, which writes `&` before every
/// pair but the first, then name, `=` and value, each byte of their UTF-8
/// form as [`encoded_byte`] says. For pairs of strings the serializer has no
/// failing path, so the contract promises the text; none of this is proved.
#[verifier::external_body]
fn to_query_string(params: &Vec<(String, String)>) -> (r: Result<
    String,
    serde_urlencoded::ser::Error,
>)
    ensures
        r is Ok,
        r matches Ok(s) ==> s@ == form_encoded(pairs(params@)),
{
    serde_urlencoded::to_string(params)
}

/// The query string of a list of (name, value) pairs.
pub fn query_string(params: &Vec<(String, String)>) -> (r: String)
    ensures
        r@ == form_encoded(pairs(params@)),
{
    match to_query_string(params) {
        Ok(s) => s,
        Err(_) => unreached(),
    }
}

} // verus!
