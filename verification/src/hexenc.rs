//! Lowercase hex encoding of byte payloads.
//!
//! Sender pubkeys taken from an HTLC's pubkey record are raw bytes; the
//! pipeline shows them as lowercase hex text. The encoding itself is done
//! by the `hex` crate behind a trusted wrapper whose contract pins the
//! result to [`hex_bytes`].

use vstd::prelude::*;
use vstd::utf8::*;

verus! {

/// ASCII byte of the lowercase hex digit for a nibble value.
pub open spec fn hex_digit(n: u8) -> u8
    recommends
        n < 16,
{
    if n < 10 {
        (0x30 + n) as u8
    } else {
        (0x61 + (n - 10)) as u8
    }
}

/// Lowercase hex encoding of a byte sequence: two digits per byte, high
/// nibble first.
pub open spec fn hex_bytes(b: Seq<u8>) -> Seq<u8> {
    Seq::new(
        b.len() * 2,
        |i: int| if i % 2 == 0 {
            hex_digit(b[i / 2] / 16)
        } else {
            hex_digit(b[i / 2] % 16)
        },
    )
}

/// Relies on hex::encode: each input byte becomes its two lowercase hex
/// digits, high nibble first.
#[verifier::external_body]
pub fn hex_encode_bytes(b: &Vec<u8>) -> (r: Vec<u8>)
    ensures
        r@ == hex_bytes(b@),
{
    hex::encode(b.as_slice()).into_bytes()
}

/// Hex digits are ASCII, so a hex encoding is one-byte characters only.
pub proof fn lemma_hex_bytes_ascii(b: Seq<u8>)
    ensures
        forall|i: int| 0 <= i < hex_bytes(b).len() ==> is_leading_byte_width_1(#[trigger] hex_bytes(b)[i]),
{
}

} // verus!
