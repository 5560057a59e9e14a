use vstd::prelude::*;

use crate::bytes::append_bytes;
use crate::bytes::push_zeros;
use crate::hashing::keccak256_bytes;
use crate::hashing::keccak_of;
use crate::types::Address;
use crate::types::Hash256;

verus! {

/// The 64-byte buffer hashed by the sender-and-salt encoding: 12 zero bytes,
/// the 20-byte sender, then the 32-byte value.
pub open spec fn encode_preimage(sender: Seq<u8>, value: Seq<u8>) -> Seq<u8> {
    Seq::new(12, |i: int| 0u8) + sender + value
}

/// The sender-and-salt encoding: the keccak digest of `encode_preimage`.
pub open spec fn spec_encode_sender_and_salt(sender: Seq<u8>, value: Seq<u8>) -> Seq<u8> {
    keccak_of(encode_preimage(sender, value))
}

/// The effective salt the factory consumes: the raw salt bound first to the
/// message sender, then to the token launcher, in that order.
pub open spec fn spec_effective_salt(
    salt: Seq<u8>,
    msg_sender: Seq<u8>,
    token_launcher: Seq<u8>,
) -> Seq<u8> {
    spec_encode_sender_and_salt(token_launcher, spec_encode_sender_and_salt(msg_sender, salt))
}

/// The 85-byte buffer of the CREATE2 formula:
/// `0xff ++ deployer ++ effective_salt ++ init_code_hash`.
pub open spec fn create2_preimage(
    deployer: Seq<u8>,
    effective_salt: Seq<u8>,
    init_code_hash: Seq<u8>,
) -> Seq<u8> {
    seq![0xffu8] + deployer + effective_salt + init_code_hash
}

/// The CREATE2 deployment address: the low 20 bytes of the keccak digest of
/// `create2_preimage`.
pub open spec fn spec_create2_address(
    deployer: Seq<u8>,
    effective_salt: Seq<u8>,
    init_code_hash: Seq<u8>,
) -> Seq<u8> {
    keccak_of(create2_preimage(deployer, effective_salt, init_code_hash)).subrange(12, 32)
}

/// The full derivation chain from a raw salt to its deployment address.
pub open spec fn spec_address_for_salt(
    deployer: Seq<u8>,
    salt: Seq<u8>,
    msg_sender: Seq<u8>,
    token_launcher: Seq<u8>,
    init_code_hash: Seq<u8>,
) -> Seq<u8> {
    spec_create2_address(
        deployer,
        spec_effective_salt(salt, msg_sender, token_launcher),
        init_code_hash,
    )
}

/// Hashes the ABI-style encoding of an address and a 32-byte value: 12 zero
/// bytes, the address, then the value, fed to keccak-256.
pub fn abi_encode_sender_and_salt(sender: &Address, salt: &Hash256) -> (r: Hash256)
    requires
        sender.wf(),
        salt.wf(),
    ensures
        r.wf(),
        r@ == spec_encode_sender_and_salt(sender@, salt@),
{
    let mut buf: Vec<u8> = Vec::new();
    push_zeros(&mut buf, 12);
    append_bytes(&mut buf, &sender.bytes);
    append_bytes(&mut buf, &salt.bytes);
    proof {
        assert(buf@ =~= encode_preimage(sender@, salt@));
    }
    let digest = keccak256_bytes(&buf);
    Hash256 { bytes: digest }
}

/// Applies the sender-and-salt encoding twice: first with the message sender
/// and the raw salt, then with the token launcher and the first digest.
pub fn derive_effective_salt(
    salt: &Hash256,
    msg_sender: &Address,
    token_launcher: &Address,
) -> (r: Hash256)
    requires
        salt.wf(),
        msg_sender.wf(),
        token_launcher.wf(),
    ensures
        r.wf(),
        r@ == spec_effective_salt(salt@, msg_sender@, token_launcher@),
{
    let bound_to_sender = abi_encode_sender_and_salt(msg_sender, salt);
    abi_encode_sender_and_salt(token_launcher, &bound_to_sender)
}

/// The CREATE2 formula: the low 20 bytes of
/// `keccak256(0xff ++ deployer ++ effective_salt ++ init_code_hash)`.
pub fn compute_create2_address(
    deployer: &Address,
    effective_salt: &Hash256,
    init_code_hash: &Hash256,
) -> (r: Address)
    requires
        deployer.wf(),
        effective_salt.wf(),
        init_code_hash.wf(),
    ensures
        r.wf(),
        r@ == spec_create2_address(deployer@, effective_salt@, init_code_hash@),
{
    let mut buf: Vec<u8> = Vec::new();
    buf.push(0xff);
    append_bytes(&mut buf, &deployer.bytes);
    append_bytes(&mut buf, &effective_salt.bytes);
    append_bytes(&mut buf, &init_code_hash.bytes);
    proof {
        assert(buf@ =~= create2_preimage(deployer@, effective_salt@, init_code_hash@));
    }
    let digest = keccak256_bytes(&buf);
    let mut low: Vec<u8> = Vec::new();
    let mut i: usize = 12;
    while i < 32
        invariant
            12 <= i <= 32,
            digest@.len() == 32,
            low@.len() == i - 12,
            forall|j: int| 0 <= j < i - 12 ==> low@[j] == digest@[12 + j],
        decreases 32 - i,
    {
        low.push(digest[i]);
        i += 1;
    }
    proof {
        assert(low@ =~= digest@.subrange(12, 32));
    }
    Address { bytes: low }
}

} // verus!
