//! Addresses of accounts.

use vstd::prelude::*;

verus! {

/// Number of bytes in an address.
pub const ADDRESS_BYTES: usize = 32;

/// Maximum length of a seed from which an address is derived.
pub const MAX_SEED_LEN: usize = 32;

/// Maximum number of seeds from which an address is derived.
pub const MAX_SEEDS: usize = 16;

/// The address of an account: thirty-two bytes.
#[derive(Clone, Copy, Debug, PartialEq, Eq)]
pub struct Address(pub [u8; ADDRESS_BYTES]);

impl View for Address {
    type V = Seq<u8>;

    /// The bytes of the address, in order.
    open spec fn view(&self) -> Seq<u8> {
        self.0@
    }
}

impl Address {
    /// The address that `bytes` spell.
    pub fn new_from_array(bytes: [u8; ADDRESS_BYTES]) -> (address: Address)
        ensures
            address.0 == bytes,
    {
        Address(bytes)
    }

    /// The bytes of the address.
    pub fn as_array(&self) -> (bytes: &[u8; ADDRESS_BYTES])
        ensures
            *bytes == self.0,
    {
        &self.0
    }

    /// Tells whether two addresses hold the same bytes.
    #[allow(non_snake_case)]
    pub fn equals(&self, other: &Address) -> (same: bool)
        ensures
            same <==> *self == *other,
    {
        let mut i: usize = 0;
        while i < ADDRESS_BYTES
            invariant
                i <= ADDRESS_BYTES,
                forall|j: int| 0 <= j < i ==> self.0[j] == other.0[j],
            decreases ADDRESS_BYTES - i,
        {
            if self.0[i] != other.0[i] {
                return false;
            }
            i += 1;
        }
        assert(self.0 =~= other.0);
        true
    }

    /// The bytes of the address, as a vector of their own.
    #[allow(non_snake_case)]
    pub fn toBytes(&self) -> (bytes: Vec<u8>)
        ensures
            bytes@ == self@,
    {
        let mut bytes: Vec<u8> = Vec::with_capacity(ADDRESS_BYTES);
        let mut i: usize = 0;
        while i < ADDRESS_BYTES
            invariant
                i <= ADDRESS_BYTES,
                bytes@ == self@.subrange(0, i as int),
            decreases ADDRESS_BYTES - i,
        {
            bytes.push(self.0[i]);
            i += 1;
        }
        bytes
    }
}

} // verus!
