use address_miner::criteria::checksum_hex;
use address_miner::criteria::fulfills_vanity;
use address_miner::criteria::lower_hex;
use address_miner::criteria::mask_matches;
use address_miner::criteria::AcceptanceCriterion;
use address_miner::types::Address;

fn addr_from_hex(s: &str) -> Address {
    Address::from_bytes(alloy_primitives::hex::decode(s).unwrap()).unwrap()
}

#[test]
fn permission_mask_accepts_matching_low_bits() {
    // The two addresses agree on the low 14 bits but nowhere else.
    let mask = addr_from_hex("0000000000000000000000000000000000002abc");
    let address = addr_from_hex("deadbeefdeadbeefdeadbeefdeadbeefdead6abc");
    assert!(mask_matches(&mask, &address));

    let criterion = AcceptanceCriterion::PermissionMask { mask };
    assert!(criterion.accepts(&address));
}

#[test]
fn permission_mask_rejects_differing_low_bits() {
    let mask = addr_from_hex("0000000000000000000000000000000000002abc");
    let address = addr_from_hex("0000000000000000000000000000000000002abd");
    assert!(!mask_matches(&mask, &address));

    let criterion = AcceptanceCriterion::PermissionMask { mask };
    assert!(!criterion.accepts(&address));
}

#[test]
fn lower_hex_renders_digits() {
    let rendered = lower_hex(&vec![0xde, 0xad, 0xbe, 0xef, 0x01]);
    assert_eq!(rendered, b"deadbeef01".to_vec());
}

#[test]
fn checksum_rendering_matches_reference() {
    let address = addr_from_hex("5aAeb6053F3E94C9b9A09f33669435E7Ef1BeAed");
    let rendered = checksum_hex(&address);
    assert_eq!(rendered, b"5aAeb6053F3E94C9b9A09f33669435E7Ef1BeAed".to_vec());

    let reference = alloy_primitives::Address::from_slice(&address.bytes).to_checksum(None);
    assert_eq!(rendered.as_slice(), &reference.as_bytes()[2..]);
}

#[test]
fn vanity_case_insensitive_ignores_casing() {
    let address = addr_from_hex("5aAeb6053F3E94C9b9A09f33669435E7Ef1BeAed");
    assert!(fulfills_vanity(&address, &b"5AAEB6".to_vec(), false));
    assert!(fulfills_vanity(&address, &b"5aaeb6".to_vec(), false));
    assert!(fulfills_vanity(&address, &b"5aAeB6".to_vec(), false));
    assert!(!fulfills_vanity(&address, &b"6aaeb6".to_vec(), false));
}

#[test]
fn vanity_case_sensitive_requires_checksum_casing() {
    let address = addr_from_hex("5aAeb6053F3E94C9b9A09f33669435E7Ef1BeAed");
    assert!(fulfills_vanity(&address, &b"5aAeb6".to_vec(), true));
    assert!(!fulfills_vanity(&address, &b"5aaeb6".to_vec(), true));
    assert!(!fulfills_vanity(&address, &b"5AAEB6".to_vec(), true));
}

#[test]
fn address_match_accepts_exact_target() {
    let address = addr_from_hex("00000000000000000000000000000000deadbeef");
    let target = addr_from_hex("00000000000000000000000000000000deadbeef");
    let criterion = AcceptanceCriterion::AddressMatch {
        target: Some(target),
        vanity_prefix: Vec::new(),
        case_sensitive: false,
    };
    assert!(criterion.accepts(&address));

    let other = addr_from_hex("00000000000000000000000000000000deadbef0");
    assert!(!criterion.accepts(&other));
}

#[test]
fn target_and_vanity_together_accept_when_either_matches() {
    let target = addr_from_hex("00000000000000000000000000000000deadbeef");
    let criterion = AcceptanceCriterion::AddressMatch {
        target: Some(target),
        vanity_prefix: b"1234".to_vec(),
        case_sensitive: false,
    };

    // Hits the target but not the prefix.
    let by_target = addr_from_hex("00000000000000000000000000000000deadbeef");
    assert!(criterion.accepts(&by_target));

    // Hits the prefix but not the target.
    let by_prefix = addr_from_hex("1234000000000000000000000000000000000000");
    assert!(criterion.accepts(&by_prefix));

    // Hits neither.
    let neither = addr_from_hex("4321000000000000000000000000000000000000");
    assert!(!criterion.accepts(&neither));
}

#[test]
fn address_match_with_no_condition_rejects_everything() {
    let address = addr_from_hex("00000000000000000000000000000000deadbeef");
    let criterion = AcceptanceCriterion::AddressMatch {
        target: None,
        vanity_prefix: Vec::new(),
        case_sensitive: false,
    };
    assert!(!criterion.accepts(&address));
    assert!(!criterion.condition_present());

    let with_mask = AcceptanceCriterion::PermissionMask {
        mask: addr_from_hex("0000000000000000000000000000000000002abc"),
    };
    assert!(with_mask.condition_present());
}
