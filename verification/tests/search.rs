use address_miner::criteria::fulfills_vanity;
use address_miner::criteria::mask_matches;
use address_miner::criteria::AcceptanceCriterion;
use address_miner::derivation::compute_create2_address;
use address_miner::derivation::derive_effective_salt;
use address_miner::search::mine;
use address_miner::search::mine_salt;
use address_miner::search::mine_salt_for_address;
use address_miner::search::mine_step;
use address_miner::search::publish_result;
use address_miner::types::Address;
use address_miner::types::Hash256;

fn addr_from_byte(last: u8) -> Address {
    let mut b = vec![0u8; 20];
    b[19] = last;
    Address::from_bytes(b).unwrap()
}

fn hash_from_byte(last: u8) -> Hash256 {
    let mut b = vec![0u8; 32];
    b[31] = last;
    Hash256::from_bytes(b).unwrap()
}

/// Re-derives the deployment address of `salt` with the reference
/// implementation alone, bypassing the library's own derivation.
fn reference_address(
    strategy: &Address,
    init_code_hash: &Hash256,
    msg_sender: &Address,
    token_launcher: &Address,
    salt: &Hash256,
) -> alloy_primitives::Address {
    let encode = |sender: &Address, value: &[u8]| -> alloy_primitives::B256 {
        let mut buf = vec![0u8; 12];
        buf.extend_from_slice(&sender.bytes);
        buf.extend_from_slice(value);
        alloy_primitives::keccak256(&buf)
    };
    let bound_to_sender = encode(msg_sender, &salt.bytes);
    let effective = encode(token_launcher, bound_to_sender.as_slice());
    alloy_primitives::Address::from_slice(&strategy.bytes).create2(
        effective,
        alloy_primitives::B256::from_slice(&init_code_hash.bytes),
    )
}

#[test]
fn mining_a_short_vanity_prefix_terminates_and_verifies() {
    let strategy = addr_from_byte(0x10);
    let msg_sender = addr_from_byte(0x20);
    let token_launcher = addr_from_byte(0x30);
    let init_code_hash = hash_from_byte(0x40);

    let salt = mine_salt_for_address(
        &strategy,
        &init_code_hash,
        &msg_sender,
        &token_launcher,
        &None,
        &b"a".to_vec(),
        false,
        1_000_000,
    )
    .expect("a four-bit prefix should be hit well within the budget");

    // Repeat-and-verify with the library's own derivation.
    let effective = derive_effective_salt(&salt, &msg_sender, &token_launcher);
    let address = compute_create2_address(&strategy, &effective, &init_code_hash);
    assert!(fulfills_vanity(&address, &b"a".to_vec(), false));

    // And independently with the reference implementation.
    let reference = reference_address(&strategy, &init_code_hash, &msg_sender, &token_launcher, &salt);
    assert_eq!(address.bytes.as_slice(), reference.as_slice());
}

#[test]
fn mining_a_permission_mask_terminates_and_verifies() {
    let strategy = addr_from_byte(0x11);
    let msg_sender = addr_from_byte(0x21);
    let token_launcher = addr_from_byte(0x31);
    let init_code_hash = hash_from_byte(0x41);
    let mask = addr_from_byte(0x44);

    let salt = mine_salt(
        &strategy,
        &init_code_hash,
        &Some(Address::from_bytes(mask.bytes.clone()).unwrap()),
        &msg_sender,
        &token_launcher,
        10_000_000,
    )
    .expect("a 14-bit mask should be hit well within the budget");

    let effective = derive_effective_salt(&salt, &msg_sender, &token_launcher);
    let address = compute_create2_address(&strategy, &effective, &init_code_hash);
    assert!(mask_matches(&mask, &address));
    assert_eq!(address.bytes[18] & 0x3f, mask.bytes[18] & 0x3f);
    assert_eq!(address.bytes[19], mask.bytes[19]);
}

#[test]
fn mining_without_mask_returns_a_salt_at_once() {
    let strategy = addr_from_byte(0x12);
    let msg_sender = addr_from_byte(0x22);
    let token_launcher = addr_from_byte(0x32);
    let init_code_hash = hash_from_byte(0x42);

    let salt = mine_salt(&strategy, &init_code_hash, &None, &msg_sender, &token_launcher, 0);
    assert_eq!(salt.expect("no mask means the first sample is kept").bytes.len(), 32);
}

#[test]
fn mining_an_unreachable_target_exhausts_its_budget() {
    let strategy = addr_from_byte(0x13);
    let msg_sender = addr_from_byte(0x23);
    let token_launcher = addr_from_byte(0x33);
    let init_code_hash = hash_from_byte(0x43);
    let target = addr_from_byte(0x77);

    let result = mine_salt_for_address(
        &strategy,
        &init_code_hash,
        &msg_sender,
        &token_launcher,
        &Some(target),
        &Vec::new(),
        false,
        25,
    );
    assert!(result.is_none());
}

#[test]
fn mine_step_only_returns_accepted_salts() {
    let strategy = addr_from_byte(0x14);
    let msg_sender = addr_from_byte(0x24);
    let token_launcher = addr_from_byte(0x34);
    let init_code_hash = hash_from_byte(0x44);
    let criterion = AcceptanceCriterion::AddressMatch {
        target: None,
        vanity_prefix: b"7".to_vec(),
        case_sensitive: false,
    };

    let mut found = 0;
    for _ in 0..200 {
        if let Some(salt) = mine_step(
            &strategy,
            &init_code_hash,
            &msg_sender,
            &token_launcher,
            &criterion,
        ) {
            let effective = derive_effective_salt(&salt, &msg_sender, &token_launcher);
            let address = compute_create2_address(&strategy, &effective, &init_code_hash);
            assert!(fulfills_vanity(&address, &b"7".to_vec(), false));
            found += 1;
        }
    }
    assert!(found > 0, "a four-bit prefix should be hit within 200 independent samples");
}

#[test]
fn mine_accepts_through_the_unified_dispatch() {
    let strategy = addr_from_byte(0x15);
    let msg_sender = addr_from_byte(0x25);
    let token_launcher = addr_from_byte(0x35);
    let init_code_hash = hash_from_byte(0x45);
    let criterion = AcceptanceCriterion::AddressMatch {
        target: None,
        vanity_prefix: b"b".to_vec(),
        case_sensitive: false,
    };

    let salt = mine(
        &strategy,
        &init_code_hash,
        &msg_sender,
        &token_launcher,
        &criterion,
        1_000_000,
    )
    .expect("a four-bit prefix should be hit well within the budget");
    let effective = derive_effective_salt(&salt, &msg_sender, &token_launcher);
    let address = compute_create2_address(&strategy, &effective, &init_code_hash);
    assert!(criterion.accepts(&address));
}

#[test]
fn publish_fills_an_empty_slot() {
    let first = hash_from_byte(0x01);
    let slot = publish_result(None, first);
    let kept = slot.expect("an empty slot takes the candidate");
    assert_eq!(kept.bytes, hash_from_byte(0x01).bytes);
}

#[test]
fn publish_never_overwrites_an_occupied_slot() {
    let first = hash_from_byte(0x01);
    let second = hash_from_byte(0x02);
    let slot = publish_result(Some(first), second);
    let kept = slot.expect("an occupied slot stays occupied");
    assert_eq!(kept.bytes, hash_from_byte(0x01).bytes);

    let third = hash_from_byte(0x03);
    let slot = publish_result(Some(kept), third);
    assert_eq!(slot.expect("still occupied").bytes, hash_from_byte(0x01).bytes);
}
