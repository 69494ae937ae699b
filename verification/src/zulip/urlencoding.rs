//! The form encoding of query values.

use vstd::prelude::*;
use vstd::utf8::encode_utf8;

verus! {

/// Whether the form encoding leaves a byte as it is: the ASCII letters and
/// digits, `*`, `-`, `.` and `_`.
pub open spec fn passes_unchanged(b: u8) -> bool {
    b == 0x2A || b == 0x2D || b == 0x2E || (0x30 <= b <= 0x39) || (0x41 <= b <= 0x5A) || b == 0x5F
        || (0x61 <= b <= 0x7A)
}

/// The upper-case hexadecimal digit for `n`, meant for `0 <= n < 16`.
pub open spec fn hex_upper(n: int) -> char {
    if n < 10 {
        (0x30 + n) as u8 as char
    } else {
        (0x41 + n - 10) as u8 as char
    }
}

/// The form encoding of one byte: itself where it passes unchanged, `+`
/// for a space, and otherwise `%` with its two upper-case hexadecimal
/// digits.
pub open spec fn urlencoded_byte(b: u8) -> Seq<char> {
    if passes_unchanged(b) {
        seq![b as char]
    } else if b == 0x20 {
        seq!['+']
    } else {
        seq!['%', hex_upper(b as int / 16), hex_upper(b as int % 16)]
    }
}

/// The form encoding of a run of bytes: the encodings of its bytes, one
/// after the other.
pub open spec fn urlencoded(bytes: Seq<u8>) -> Seq<char>
    decreases bytes.len(),
{
    if bytes.len() == 0 {
        Seq::empty()
    } else {
        urlencoded(bytes.drop_last()) + urlencoded_byte(bytes.last())
    }
}

/// The form encoding of a text: that of its UTF-8 bytes.
pub open spec fn urlencoded_text(text: Seq<char>) -> Seq<char> {
    urlencoded(encode_utf8(text))
}

/// Collects what `url::form_urlencoded::byte_serialize` yields for `input`:
/// the `application/x-www-form-urlencoded` serialization of the bytes, in
/// which the letters, the digits and `*-._` stand for themselves, a space
/// becomes `+`, and any other byte becomes `%` and two upper-case
/// hexadecimal digits.
#[verifier::external_body]
fn byte_serialize(input: &[u8]) -> (r: String)
    ensures
        r@ == urlencoded(input@),
{
    url::form_urlencoded::byte_serialize(input).collect()
}

/// The form encoding of `s`.
pub fn encode(s: &str) -> (r: String)
    ensures
        r@ == urlencoded_text(s@),
{
    byte_serialize(s.as_bytes())
}

} // verus!
