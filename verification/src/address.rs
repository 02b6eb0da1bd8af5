//! Account addresses.

use vstd::prelude::*;

verus! {

/// An account address: an owner's public identity, a program's identifier,
/// or the address of a vault. Always 32 bytes.
#[derive(Clone, Copy, Debug, PartialEq, Eq, Hash)]
pub struct Address {
    pub bytes: [u8; 32],
}

impl View for Address {
    type V = Seq<u8>;

    open spec fn view(&self) -> Seq<u8> {
        self.bytes@
    }
}

impl Address {
    /// The address made of the given bytes.
    pub fn new(bytes: [u8; 32]) -> (address: Address)
        ensures
            address@ == bytes@,
            address.bytes == bytes,
    {
        Address { bytes }
    }

    /// The bytes of the address.
    pub fn to_bytes(&self) -> (bytes: [u8; 32])
        ensures
            bytes@ == self@,
            bytes == self.bytes,
    {
        self.bytes
    }
}

/// Two addresses with the same bytes are the same address.
pub proof fn address_view_is_injective(a: Address, b: Address)
    requires
        a@ == b@,
    ensures
        a == b,
{
    assert(a.bytes =~= b.bytes);
}

} // verus!
