use vstd::prelude::*;

use crate::bytes::append_bytes;
use crate::criteria::AcceptanceCriterion;
use crate::criteria::spec_fulfills_vanity;
use crate::criteria::spec_mask_accepts;
use crate::derivation::compute_create2_address;
use crate::derivation::derive_effective_salt;
use crate::derivation::spec_address_for_salt;
use crate::hashing::random_bytes32;
use crate::types::Address;
use crate::types::Hash256;

verus! {

/// Draws a fresh random 32-byte salt.
pub fn sample_salt() -> (r: Hash256)
    ensures
        r.wf(),
{
    Hash256 { bytes: random_bytes32() }
}

/// One search iteration: sample a random salt, derive its deployment
/// address, and test the criterion. Returns the salt only when its derived
/// address is accepted; the caller decides whether to iterate further, so a
/// shared stop signal can be consulted between the cheap steps.
pub fn mine_step(
    strategy_address: &Address,
    init_code_hash: &Hash256,
    msg_sender_address: &Address,
    token_launcher_address: &Address,
    criterion: &AcceptanceCriterion,
) -> (r: Option<Hash256>)
    requires
        strategy_address.wf(),
        init_code_hash.wf(),
        msg_sender_address.wf(),
        token_launcher_address.wf(),
        criterion.wf(),
    ensures
        r matches Some(salt) ==> salt.wf() && criterion.spec_accepts(
            spec_address_for_salt(
                strategy_address@,
                salt@,
                msg_sender_address@,
                token_launcher_address@,
                init_code_hash@,
            ),
        ),
{
    let salt = sample_salt();
    let effective_salt = derive_effective_salt(&salt, msg_sender_address, token_launcher_address);
    let address = compute_create2_address(strategy_address, &effective_salt, init_code_hash);
    if criterion.accepts(&address) {
        Some(salt)
    } else {
        None
    }
}

/// Runs up to `max_attempts` search iterations and returns the first salt
/// whose derived address the criterion accepts, or nothing when the budget
/// runs out first. A caller searching without bound re-invokes this, or
/// `mine_step` itself, until a salt comes back.
pub fn mine(
    strategy_address: &Address,
    init_code_hash: &Hash256,
    msg_sender_address: &Address,
    token_launcher_address: &Address,
    criterion: &AcceptanceCriterion,
    max_attempts: u64,
) -> (r: Option<Hash256>)
    requires
        strategy_address.wf(),
        init_code_hash.wf(),
        msg_sender_address.wf(),
        token_launcher_address.wf(),
        criterion.wf(),
    ensures
        r matches Some(salt) ==> salt.wf() && criterion.spec_accepts(
            spec_address_for_salt(
                strategy_address@,
                salt@,
                msg_sender_address@,
                token_launcher_address@,
                init_code_hash@,
            ),
        ),
{
    let mut remaining: u64 = max_attempts;
    while remaining > 0
        invariant
            strategy_address.wf(),
            init_code_hash.wf(),
            msg_sender_address.wf(),
            token_launcher_address.wf(),
            criterion.wf(),
        decreases remaining,
    {
        let attempt = mine_step(
            strategy_address,
            init_code_hash,
            msg_sender_address,
            token_launcher_address,
            criterion,
        );
        if attempt.is_some() {
            return attempt;
        }
        remaining = remaining - 1;
    }
    None
}

/// Mines a salt whose deployment address carries the requested hook
/// permission bits, giving up once `max_attempts` samples all failed;
/// without a mask, the first sampled salt is returned untested, as vanity
/// and target searches supply their own criterion.
pub fn mine_salt(
    strategy_address: &Address,
    init_code_hash: &Hash256,
    hook_permissions_mask: &Option<Address>,
    msg_sender_address: &Address,
    token_launcher_address: &Address,
    max_attempts: u64,
) -> (r: Option<Hash256>)
    requires
        strategy_address.wf(),
        init_code_hash.wf(),
        msg_sender_address.wf(),
        token_launcher_address.wf(),
        hook_permissions_mask matches Some(m) ==> m.wf(),
    ensures
        r matches Some(salt) ==> salt.wf(),
        hook_permissions_mask matches Some(m) ==> (r matches Some(salt)
            ==> spec_mask_accepts(
            m@,
            spec_address_for_salt(
                strategy_address@,
                salt@,
                msg_sender_address@,
                token_launcher_address@,
                init_code_hash@,
            ),
        )),
        hook_permissions_mask is None ==> r is Some,
{
    match hook_permissions_mask {
        Some(mask) => {
            let criterion = AcceptanceCriterion::PermissionMask { mask: mask.duplicate() };
            mine(
                strategy_address,
                init_code_hash,
                msg_sender_address,
                token_launcher_address,
                &criterion,
                max_attempts,
            )
        },
        None => Some(sample_salt()),
    }
}

/// Mines a salt whose deployment address equals the target address or whose
/// rendering starts with the vanity prefix, giving up once `max_attempts`
/// samples all failed; with neither condition present every sample fails.
pub fn mine_salt_for_address(
    strategy_address: &Address,
    init_code_hash: &Hash256,
    msg_sender_address: &Address,
    token_launcher_address: &Address,
    target_address: &Option<Address>,
    vanity_prefix: &Vec<u8>,
    case_sensitive: bool,
    max_attempts: u64,
) -> (r: Option<Hash256>)
    requires
        strategy_address.wf(),
        init_code_hash.wf(),
        msg_sender_address.wf(),
        token_launcher_address.wf(),
        target_address matches Some(t) ==> t.wf(),
    ensures
        r matches Some(salt) ==> salt.wf() && ({
            let addr = spec_address_for_salt(
                strategy_address@,
                salt@,
                msg_sender_address@,
                token_launcher_address@,
                init_code_hash@,
            );
            (target_address matches Some(t) && t@ == addr) || (vanity_prefix@.len() > 0
                && spec_fulfills_vanity(addr, vanity_prefix@, case_sensitive))
        }),
{
    let target_copy: Option<Address> = match target_address {
        Some(t) => Some(t.duplicate()),
        None => None,
    };
    let mut prefix_copy: Vec<u8> = Vec::new();
    append_bytes(&mut prefix_copy, vanity_prefix);
    proof {
        assert(prefix_copy@ =~= vanity_prefix@);
    }
    let criterion = AcceptanceCriterion::AddressMatch {
        target: target_copy,
        vanity_prefix: prefix_copy,
        case_sensitive,
    };
    mine(
        strategy_address,
        init_code_hash,
        msg_sender_address,
        token_launcher_address,
        &criterion,
        max_attempts,
    )
}

/// What one write attempt leaves in the shared result slot: an occupied slot
/// is never overwritten; an empty one takes the candidate.
pub open spec fn spec_publish(slot: Option<Hash256>, found: Hash256) -> Option<Hash256> {
    if slot is Some {
        slot
    } else {
        Some(found)
    }
}

/// Commits a found salt to the shared result slot with first-committer-wins
/// semantics: a later write attempt against an occupied slot is a no-op.
pub fn publish_result(slot: Option<Hash256>, found: Hash256) -> (r: Option<Hash256>)
    ensures
        r == spec_publish(slot, found),
        r is Some,
{
    match slot {
        Some(kept) => Some(kept),
        None => Some(found),
    }
}

/// The slot after a sequence of write attempts, applied in commit order.
pub open spec fn spec_commit_all(slot: Option<Hash256>, writes: Seq<Hash256>) -> Option<Hash256>
    decreases writes.len(),
{
    if writes.len() == 0 {
        slot
    } else {
        spec_commit_all(spec_publish(slot, writes[0]), writes.drop_first())
    }
}

/// An occupied slot survives any sequence of later write attempts unchanged.
pub proof fn lemma_occupied_slot_unchanged(kept: Hash256, writes: Seq<Hash256>)
    ensures
        spec_commit_all(Some(kept), writes) == Some(kept),
    decreases writes.len(),
{
    if writes.len() > 0 {
        lemma_occupied_slot_unchanged(kept, writes.drop_first());
    }
}

/// Law: however many workers race to commit, exactly one result is observed
/// after all write attempts — the first committed one — never zero results
/// and never a mix of two attempts.
pub proof fn lemma_first_commit_wins(writes: Seq<Hash256>)
    requires
        writes.len() > 0,
    ensures
        spec_commit_all(None::<Hash256>, writes) == Some(writes[0]),
{
    lemma_occupied_slot_unchanged(writes[0], writes.drop_first());
}

} // verus!
