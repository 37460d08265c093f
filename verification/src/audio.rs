//! Microphone audio as the model takes it: base64 text.

use base64::Engine;
use vstd::prelude::*;

verus! {

/// The digit for a value below 64, in the standard alphabet.
pub open spec fn base64_digit(value: int) -> char {
    "ABCDEFGHIJKLMNOPQRSTUVWXYZabcdefghijklmnopqrstuvwxyz0123456789+/"@[value]
}

/// The four digits for three bytes: their 24 bits, six to a digit.
pub open spec fn base64_group(a: u8, b: u8, c: u8) -> Seq<char> {
    let bits: int = a * 0x1_0000 + b * 0x100 + c;
    seq![
        base64_digit(bits / 0x4_0000),
        base64_digit(bits / 0x1000 % 0x40),
        base64_digit(bits / 0x40 % 0x40),
        base64_digit(bits % 0x40),
    ]
}

/// The base64 text of `data` in the standard alphabet: four digits for every three bytes, with `=`
/// in place of the digits that a short last group does not fill.
pub open spec fn base64_text(data: Seq<u8>) -> Seq<char>
    decreases data.len(),
{
    if data.len() == 0 {
        seq![]
    } else if data.len() == 1 {
        base64_group(data[0], 0, 0).take(2) + seq!['=', '=']
    } else if data.len() == 2 {
        base64_group(data[0], data[1], 0).take(3) + seq!['=']
    } else {
        base64_group(data[0], data[1], data[2]) + base64_text(data.skip(3))
    }
}

/// How many characters the base64 text of `bytes` bytes has.
pub open spec fn base64_length(bytes: nat) -> nat {
    (bytes + 2) / 3 * 4
}

/// `base64::engine::general_purpose::STANDARD.encode`: the padded base64 text in the standard
/// alphabet of RFC 4648. It panics where the text would be longer than an allocation can be.
#[verifier::external_body]
pub(crate) fn base64_encode(data: &[u8]) -> (r: String)
    requires
        base64_length(data@.len()) <= isize::MAX,
    ensures
        r@ == base64_text(data@),
{
    base64::engine::general_purpose::STANDARD.encode(data)
}

/// The base64 text of `data` has as many characters as `base64_length` says.
pub proof fn base64_text_has_its_length(data: Seq<u8>)
    ensures
        base64_text(data).len() == base64_length(data.len()),
    decreases data.len(),
{
    if data.len() >= 3 {
        base64_text_has_its_length(data.skip(3));
    }
}

} // verus!
