use vstd::prelude::*;

use crate::bytes::spec_is_prefix;
use crate::bytes::spec_lower;
use crate::bytes::starts_with;
use crate::bytes::to_lower_bytes;
use crate::hashing::keccak256_bytes;
use crate::hashing::keccak_of;
use crate::types::Address;

verus! {

/// Byte `i` of the 20-byte hook-permission mask constant
/// `0x0000000000000000000000000000000000003fff`: only the low 14 bits are set.
pub open spec fn spec_hook_mask_byte(i: int) -> u8 {
    if i == 18 {
        0x3f
    } else if i == 19 {
        0xff
    } else {
        0x00
    }
}

/// A 20-byte value AND-ed byte-wise with the hook-permission mask constant,
/// keeping only the low 14 bits.
pub open spec fn spec_masked_low14(a: Seq<u8>) -> Seq<u8> {
    Seq::new(20, |i: int| a[i] & spec_hook_mask_byte(i))
}

/// The permission-mask criterion: the derived address and the requested mask
/// agree on their low 14 bits.
pub open spec fn spec_mask_accepts(mask: Seq<u8>, addr: Seq<u8>) -> bool {
    spec_masked_low14(addr) == spec_masked_low14(mask)
}

/// The low-14-bit agreement of two 20-byte values comes down to their last
/// two bytes: bits 8..14 sit in byte 18 and bits 0..8 in byte 19.
pub proof fn lemma_mask_accepts_bytes(mask: Seq<u8>, addr: Seq<u8>)
    requires
        mask.len() == 20,
        addr.len() == 20,
    ensures
        spec_mask_accepts(mask, addr) <==> ((addr[18] & 0x3f) == (mask[18] & 0x3f) && addr[19]
            == mask[19]),
{
    assert(forall|x: u8| #[trigger] (x & 0x00) == 0x00) by (bit_vector);
    assert(forall|x: u8| #[trigger] (x & 0xff) == x) by (bit_vector);
    if (addr[18] & 0x3f) == (mask[18] & 0x3f) && addr[19] == mask[19] {
        assert(spec_masked_low14(addr) =~= spec_masked_low14(mask));
    }
    if spec_mask_accepts(mask, addr) {
        assert(spec_masked_low14(addr)[18] == spec_masked_low14(mask)[18]);
        assert(spec_masked_low14(addr)[19] == spec_masked_low14(mask)[19]);
    }
}

/// Decides the permission-mask criterion for a derived address.
pub fn mask_matches(mask: &Address, addr: &Address) -> (r: bool)
    requires
        mask.wf(),
        addr.wf(),
    ensures
        r == spec_mask_accepts(mask@, addr@),
{
    proof {
        lemma_mask_accepts_bytes(mask@, addr@);
    }
    (addr.bytes[18] & 0x3f) == (mask.bytes[18] & 0x3f) && addr.bytes[19] == mask.bytes[19]
}

/// The ASCII byte of a single hex digit, lower-case letters for 10..16.
pub open spec fn spec_hex_digit(n: u8) -> u8
    recommends
        n < 16,
{
    if n < 10 {
        (0x30 + n) as u8
    } else {
        (0x57 + n) as u8
    }
}

/// The lower-case hex rendering of a byte sequence: two digits per byte,
/// high nibble first, no `0x` prefix.
pub open spec fn spec_lower_hex(bytes: Seq<u8>) -> Seq<u8> {
    Seq::new(
        bytes.len() * 2,
        |i: int|
            if i % 2 == 0 {
                spec_hex_digit(bytes[i / 2] >> 4)
            } else {
                spec_hex_digit(bytes[i / 2] & 0x0f)
            },
    )
}

/// The ASCII byte of a hex digit, as `spec_hex_digit` states.
fn hex_digit(n: u8) -> (r: u8)
    requires
        n < 16,
    ensures
        r == spec_hex_digit(n),
{
    if n < 10 {
        0x30 + n
    } else {
        0x57 + n
    }
}

/// The lower-case hex rendering of a byte vector, as `spec_lower_hex` states.
pub fn lower_hex(bytes: &Vec<u8>) -> (r: Vec<u8>)
    ensures
        r@ == spec_lower_hex(bytes@),
{
    let mut out: Vec<u8> = Vec::new();
    let mut i: usize = 0;
    while i < bytes.len()
        invariant
            i <= bytes.len(),
            out@.len() == 2 * i,
            forall|j: int| 0 <= j < 2 * i ==> out@[j] == spec_lower_hex(bytes@)[j],
        decreases bytes.len() - i,
    {
        let b = bytes[i];
        proof {
            assert(b >> 4 < 16 && b & 0x0f < 16) by (bit_vector);
        }
        out.push(hex_digit(b >> 4));
        out.push(hex_digit(b & 0x0f));
        i += 1;
    }
    proof {
        assert(out@ =~= spec_lower_hex(bytes@));
    }
    out
}

/// Nibble `i` of a 32-byte digest: the high half of byte `i / 2` for even
/// `i`, the low half for odd `i`.
pub open spec fn spec_hash_nibble(hash: Seq<u8>, i: int) -> u8 {
    if i % 2 == 0 {
        hash[i / 2] >> 4
    } else {
        hash[i / 2] & 0x0f
    }
}

/// One byte of the checksum rendering: a lower-case hex letter is raised to
/// upper case exactly when the matching digest nibble is at least 8.
pub open spec fn spec_checksum_byte(c: u8, nibble: u8) -> u8 {
    if 0x61 <= c && c <= 0x66 && nibble >= 8 {
        (c - 0x20) as u8
    } else {
        c
    }
}

/// The checksum casing applied to a hex rendering, directed by a digest.
pub open spec fn spec_checksum_map(hex: Seq<u8>, hash: Seq<u8>) -> Seq<u8> {
    Seq::new(hex.len(), |i: int| spec_checksum_byte(hex[i], spec_hash_nibble(hash, i)))
}

/// The checksum-cased hex rendering of an address: its lower-case hex digits
/// re-cased by the keccak digest of those very digits.
pub open spec fn spec_checksum_hex(addr: Seq<u8>) -> Seq<u8> {
    spec_checksum_map(spec_lower_hex(addr), keccak_of(spec_lower_hex(addr)))
}

/// The checksum-cased hex rendering of an address, 40 ASCII bytes without a
/// `0x` prefix, as `spec_checksum_hex` states.
pub fn checksum_hex(addr: &Address) -> (r: Vec<u8>)
    requires
        addr.wf(),
    ensures
        r@ == spec_checksum_hex(addr@),
        r@.len() == 40,
{
    let hex = lower_hex(&addr.bytes);
    let hash = keccak256_bytes(&hex);
    let mut out: Vec<u8> = Vec::new();
    let mut i: usize = 0;
    while i < hex.len()
        invariant
            i <= hex.len(),
            hex@.len() == 40,
            hash@.len() == 32,
            hex@ == spec_lower_hex(addr@),
            hash@ == keccak_of(spec_lower_hex(addr@)),
            out@.len() == i,
            forall|j: int|
                0 <= j < i ==> out@[j] == spec_checksum_byte(
                    hex@[j],
                    spec_hash_nibble(hash@, j),
                ),
        decreases hex.len() - i,
    {
        let c = hex[i];
        let nibble: u8 = if i % 2 == 0 {
            hash[i / 2] >> 4
        } else {
            hash[i / 2] & 0x0f
        };
        if 0x61 <= c && c <= 0x66 && nibble >= 8 {
            out.push(c - 0x20);
        } else {
            out.push(c);
        }
        i += 1;
    }
    proof {
        assert(out@ =~= spec_checksum_hex(addr@));
    }
    out
}

/// The vanity criterion: case-insensitively, the lower-cased prefix leads the
/// lower-case hex rendering; case-sensitively, the prefix as given leads the
/// checksum-cased rendering.
pub open spec fn spec_fulfills_vanity(addr: Seq<u8>, prefix: Seq<u8>, case_sensitive: bool) -> bool {
    if case_sensitive {
        spec_is_prefix(prefix, spec_checksum_hex(addr))
    } else {
        spec_is_prefix(spec_lower(prefix), spec_lower_hex(addr))
    }
}

/// Decides the vanity criterion for a derived address, as
/// `spec_fulfills_vanity` states.
pub fn fulfills_vanity(address: &Address, prefix: &Vec<u8>, case_sensitive: bool) -> (r: bool)
    requires
        address.wf(),
    ensures
        r == spec_fulfills_vanity(address@, prefix@, case_sensitive),
{
    if case_sensitive {
        let rendered = checksum_hex(address);
        starts_with(&rendered, prefix)
    } else {
        let rendered = lower_hex(&address.bytes);
        let lowered = to_lower_bytes(prefix);
        starts_with(&rendered, &lowered)
    }
}

/// The single acceptance rule a search runs under: either the hook
/// permission mask, or an address match by exact target and/or vanity prefix.
pub enum AcceptanceCriterion {
    PermissionMask { mask: Address },
    AddressMatch { target: Option<Address>, vanity_prefix: Vec<u8>, case_sensitive: bool },
}

impl AcceptanceCriterion {
    /// Every address the criterion holds is well-formed.
    pub open spec fn wf(&self) -> bool {
        match self {
            AcceptanceCriterion::PermissionMask { mask } => mask.wf(),
            AcceptanceCriterion::AddressMatch { target, .. } => (target matches Some(t)
                ==> t.wf()),
        }
    }

    /// At least one condition is present, so that a search can terminate.
    pub open spec fn has_condition(&self) -> bool {
        match self {
            AcceptanceCriterion::PermissionMask { .. } => true,
            AcceptanceCriterion::AddressMatch { target, vanity_prefix, .. } => target is Some
                || vanity_prefix@.len() > 0,
        }
    }

    /// Whether at least one matching condition is present, as
    /// `has_condition` states; a search without one can never terminate and
    /// must not start.
    pub fn condition_present(&self) -> (r: bool)
        ensures
            r == self.has_condition(),
    {
        match self {
            AcceptanceCriterion::PermissionMask { .. } => true,
            AcceptanceCriterion::AddressMatch { target, vanity_prefix, .. } => target.is_some()
                || vanity_prefix.len() > 0,
        }
    }

    /// Whether the criterion accepts a derived address: low-14-bit agreement
    /// for a permission mask; exact equality with the target or a vanity
    /// prefix match otherwise.
    pub open spec fn spec_accepts(&self, addr: Seq<u8>) -> bool {
        match self {
            AcceptanceCriterion::PermissionMask { mask } => spec_mask_accepts(mask@, addr),
            AcceptanceCriterion::AddressMatch { target, vanity_prefix, case_sensitive } => (
            target matches Some(t) && t@ == addr) || (vanity_prefix@.len() > 0
                && spec_fulfills_vanity(addr, vanity_prefix@, *case_sensitive)),
        }
    }

    /// Decides the criterion for a derived address, as `spec_accepts` states.
    pub fn accepts(&self, addr: &Address) -> (r: bool)
        requires
            self.wf(),
            addr.wf(),
        ensures
            r == self.spec_accepts(addr@),
    {
        match self {
            AcceptanceCriterion::PermissionMask { mask } => mask_matches(mask, addr),
            AcceptanceCriterion::AddressMatch { target, vanity_prefix, case_sensitive } => {
                let target_hit = match target {
                    Some(t) => t.same_as(addr),
                    None => false,
                };
                if target_hit {
                    true
                } else if vanity_prefix.len() > 0 {
                    fulfills_vanity(addr, vanity_prefix, *case_sensitive)
                } else {
                    false
                }
            },
        }
    }
}

} // verus!
