//! UTF-8 validity checking and small text lemmas.
//!
//! The chat message inside an HTLC arrives as raw bytes and the pipeline
//! keeps it as bytes; it only has to decide whether they are well-formed
//! UTF-8 (a malformed payload drops the event). The check itself is std's
//! `str::from_utf8` behind a trusted wrapper, whose contract is stated
//! against vstd's definition of UTF-8 validity.

use vstd::prelude::*;
use vstd::utf8::*;

verus! {

/// Relies on core::str::from_utf8: it succeeds exactly on well-formed
/// UTF-8 byte sequences.
#[verifier::external_body]
pub fn utf8_is_valid(b: &Vec<u8>) -> (r: bool)
    ensures
        r == valid_utf8(b@),
{
    core::str::from_utf8(b.as_slice()).is_ok()
}

/// A sequence of one-byte (ASCII) characters is well-formed UTF-8.
pub proof fn lemma_ascii_valid_utf8(b: Seq<u8>)
    requires
        forall|i: int| 0 <= i < b.len() ==> is_leading_byte_width_1(#[trigger] b[i]),
    ensures
        valid_utf8(b),
{
    assert(partial_valid_utf8(b, 0)) by {
        assert(b.subrange(0, 0) =~= Seq::<u8>::empty());
        reveal_with_fuel(valid_utf8, 1);
    }
    partial_valid_utf8_extend_ascii_block(b, 0, b.len() as int);
    assert(b.subrange(0, b.len() as int) =~= b);
}

} // verus!
