use vstd::prelude::*;

use crate::bytes::append_bytes;
use crate::bytes::bytes_equal;

verus! {

/// A 20-byte account address.
pub struct Address {
    pub bytes: Vec<u8>,
}

impl View for Address {
    type V = Seq<u8>;

    open spec fn view(&self) -> Seq<u8> {
        self.bytes@
    }
}

impl Address {
    /// A well-formed address holds exactly 20 bytes.
    pub open spec fn wf(&self) -> bool {
        self.bytes@.len() == 20
    }

    /// Builds an address from exactly 20 bytes; any other length is rejected.
    pub fn from_bytes(bytes: Vec<u8>) -> (r: Option<Address>)
        ensures
            bytes@.len() == 20 ==> (r matches Some(a) && a.wf() && a@ == bytes@),
            bytes@.len() != 20 ==> r is None,
    {
        if bytes.len() == 20 {
            Some(Address { bytes })
        } else {
            None
        }
    }

    /// An independent copy holding the same bytes.
    pub fn duplicate(&self) -> (r: Address)
        ensures
            r@ == self@,
            self.wf() ==> r.wf(),
    {
        let mut copied: Vec<u8> = Vec::new();
        append_bytes(&mut copied, &self.bytes);
        proof {
            assert(copied@ =~= self.bytes@);
        }
        Address { bytes: copied }
    }

    /// Byte-wise equality with another address.
    pub fn same_as(&self, other: &Address) -> (r: bool)
        ensures
            r == (self@ == other@),
    {
        bytes_equal(&self.bytes, &other.bytes)
    }
}

/// A 32-byte value, used both as a salt and as a hash digest.
pub struct Hash256 {
    pub bytes: Vec<u8>,
}

impl View for Hash256 {
    type V = Seq<u8>;

    open spec fn view(&self) -> Seq<u8> {
        self.bytes@
    }
}

impl Hash256 {
    /// A well-formed value holds exactly 32 bytes.
    pub open spec fn wf(&self) -> bool {
        self.bytes@.len() == 32
    }

    /// Builds a value from exactly 32 bytes; any other length is rejected.
    pub fn from_bytes(bytes: Vec<u8>) -> (r: Option<Hash256>)
        ensures
            bytes@.len() == 32 ==> (r matches Some(h) && h.wf() && h@ == bytes@),
            bytes@.len() != 32 ==> r is None,
    {
        if bytes.len() == 32 {
            Some(Hash256 { bytes })
        } else {
            None
        }
    }
}

} // verus!
