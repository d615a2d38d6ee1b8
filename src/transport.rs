//! Text encoding of an artifact for transport to the host.

use vstd::prelude::*;
use base64::Engine;

verus! {

/// The character code of base64 digit `v` in the standard alphabet.
pub open spec fn base64_digit(v: int) -> u8 {
    if v < 26 {
        (65 + v) as u8
    } else if v < 52 {
        (97 + v - 26) as u8
    } else if v < 62 {
        (48 + v - 52) as u8
    } else if v == 62 {
        43u8
    } else {
        47u8
    }
}

/// The character codes of `b` in standard base64, padded with `=`.
pub open spec fn base64_spec(b: Seq<u8>) -> Seq<u8>
    decreases b.len(),
{
    if b.len() == 0 {
        seq![]
    } else {
        let b0 = b[0] as int;
        let b1 = if b.len() > 1 { b[1] as int } else { 0 };
        let b2 = if b.len() > 2 { b[2] as int } else { 0 };
        let first = base64_digit(b0 / 4);
        let second = base64_digit((b0 % 4) * 16 + b1 / 16);
        let third = base64_digit((b1 % 16) * 4 + b2 / 64);
        let fourth = base64_digit(b2 % 64);
        if b.len() == 1 {
            seq![first, second, 61u8, 61u8]
        } else if b.len() == 2 {
            seq![first, second, third, 61u8]
        } else {
            seq![first, second, third, fourth] + base64_spec(b.subrange(3, b.len() as int))
        }
    }
}

/// Relies on base64's `STANDARD` engine and its `encode`: the standard
/// alphabet with `=` padding.
#[verifier::external_body]
pub(crate) fn base64_encode(b: &[u8]) -> (r: String)
    ensures
        r@ == base64_spec(b@).map_values(|c: u8| c as char),
{
    base64::engine::general_purpose::STANDARD.encode(b)
}

} // verus!
