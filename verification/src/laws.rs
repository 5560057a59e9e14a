use vstd::prelude::*;

use crate::bytes::spec_is_prefix;
use crate::bytes::spec_lower;
use crate::criteria::AcceptanceCriterion;
use crate::criteria::spec_checksum_hex;
use crate::criteria::spec_fulfills_vanity;
use crate::criteria::spec_lower_hex;
use crate::derivation::spec_address_for_salt;
use crate::derivation::spec_encode_sender_and_salt;

verus! {

/// Law: the sender-and-salt encoding is deterministic — equal senders and
/// equal values always hash to equal digests.
pub proof fn lemma_encode_deterministic(
    sender1: Seq<u8>,
    value1: Seq<u8>,
    sender2: Seq<u8>,
    value2: Seq<u8>,
)
    requires
        sender1 == sender2,
        value1 == value2,
    ensures
        spec_encode_sender_and_salt(sender1, value1) == spec_encode_sender_and_salt(
            sender2,
            value2,
        ),
{
}

/// Law: lower-casing the checksum rendering of an address recovers its plain
/// lower-case hex rendering, so case-insensitive vanity matching accepts an
/// address regardless of how the rendering cased its letters.
pub proof fn lemma_checksum_lowercases_to_hex(addr: Seq<u8>, prefix: Seq<u8>)
    ensures
        spec_lower(spec_checksum_hex(addr)) == spec_lower_hex(addr),
        spec_fulfills_vanity(addr, prefix, false) == spec_is_prefix(
            spec_lower(prefix),
            spec_lower(spec_checksum_hex(addr)),
        ),
{
    assert(forall|b: u8| #[trigger] (b >> 4) < 16) by (bit_vector);
    assert(forall|b: u8| #[trigger] (b & 0x0f) < 16) by (bit_vector);
    let rendered = spec_lower_hex(addr);
    let cased = spec_checksum_hex(addr);
    assert forall|i: int| 0 <= i < cased.len() implies spec_lower(cased)[i] == rendered[i] by {
    }
    assert(spec_lower(cased) =~= rendered);
}

/// Law: re-deriving the deployment address from a returned salt under the
/// same participants yields the same address, so a salt that satisfied its
/// criterion still satisfies it when re-checked — the engine never returns a
/// salt that fails its own acceptance check.
pub proof fn lemma_verification_idempotent(
    criterion: AcceptanceCriterion,
    deployer1: Seq<u8>,
    salt1: Seq<u8>,
    msg_sender1: Seq<u8>,
    token_launcher1: Seq<u8>,
    init_code_hash1: Seq<u8>,
    deployer2: Seq<u8>,
    salt2: Seq<u8>,
    msg_sender2: Seq<u8>,
    token_launcher2: Seq<u8>,
    init_code_hash2: Seq<u8>,
)
    requires
        deployer1 == deployer2,
        salt1 == salt2,
        msg_sender1 == msg_sender2,
        token_launcher1 == token_launcher2,
        init_code_hash1 == init_code_hash2,
        criterion.spec_accepts(
            spec_address_for_salt(deployer1, salt1, msg_sender1, token_launcher1, init_code_hash1),
        ),
    ensures
        spec_address_for_salt(deployer2, salt2, msg_sender2, token_launcher2, init_code_hash2)
            == spec_address_for_salt(
            deployer1,
            salt1,
            msg_sender1,
            token_launcher1,
            init_code_hash1,
        ),
        criterion.spec_accepts(
            spec_address_for_salt(deployer2, salt2, msg_sender2, token_launcher2, init_code_hash2),
        ),
{
}

} // verus!
