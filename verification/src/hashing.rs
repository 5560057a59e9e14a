use vstd::prelude::*;

use rand::Rng;

verus! {

/// The 32-byte digest that the keccak-256 hash assigns to a byte sequence.
pub uninterp spec fn keccak_of(bytes: Seq<u8>) -> Seq<u8>;

/// Relies on alloy_primitives::keccak256: a 32-byte digest that depends on the
/// input bytes alone.
#[verifier::external_body]
pub(crate) fn keccak256_bytes(bytes: &Vec<u8>) -> (r: Vec<u8>)
    ensures
        r@ == keccak_of(bytes@),
        r@.len() == 32,
{
    alloy_primitives::keccak256(bytes.as_slice()).to_vec()
}

/// Relies on rand's thread-local generator for 32 uniformly sampled bytes;
/// nothing is assumed of their values.
#[verifier::external_body]
pub(crate) fn random_bytes32() -> (r: Vec<u8>)
    ensures
        r@.len() == 32,
{
    rand::thread_rng().gen::<[u8; 32]>().to_vec()
}

} // verus!
