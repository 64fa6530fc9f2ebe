//! The canonical display encoding of raw addresses, obtained from the `bs58`
//! crate through a trusted wrapper.

use vstd::prelude::*;

verus! {

/// The base58 text of a byte string. The encoding is a pure function of the
/// bytes; its exact shape is left to the `bs58` crate.
pub uninterp spec fn base58_of(bytes: Seq<u8>) -> Seq<char>;

/// Relies on `bs58::encode(..).into_string()`: the base58 text of the given
/// bytes, determined by the bytes alone, written in the Bitcoin alphabet
/// (digits and letters only, so never a `'-'`).
#[verifier::external_body]
pub fn base58_encode(bytes: &Vec<u8>) -> (r: String)
    ensures
        r@ == base58_of(bytes@),
        forall|i: int| 0 <= i < r@.len() ==> r@[i] != '-',
{
    bs58::encode(bytes.as_slice()).into_string()
}

} // verus!
