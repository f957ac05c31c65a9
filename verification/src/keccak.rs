//! The one outside call the library's logic makes: the Keccak-256 digest.

use vstd::prelude::*;

verus! {

/// The Keccak-256 digest of a byte string; a function of the bytes alone.
pub uninterp spec fn keccak_of(s: Seq<u8>) -> Seq<u8>;

/// Relies on `revm::primitives::keccak256` (alloy-primitives): the
/// Keccak-256 digest of the input, 32 bytes, depending on the input bytes
/// alone.
#[verifier::external_body]
pub(crate) fn keccak256(input: &[u8]) -> (r: Vec<u8>)
    ensures
        r@ == keccak_of(input@),
        r@.len() == 32,
{
    revm::primitives::keccak256(input).as_slice().to_vec()
}

} // verus!
