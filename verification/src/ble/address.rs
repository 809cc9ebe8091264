//! Device addresses.

use vstd::prelude::*;
use vstd::std_specs::cmp::PartialEqSpecImpl;

verus! {

/// The kind of a BLE device address.
#[derive(Clone, Copy, Debug, PartialEq, Eq, Structural)]
pub enum AddressType {
    Public,
    RandomStatic,
    RandomPrivateResolvable,
    RandomPrivateNonResolvable,
    Anonymous,
}

/// A BLE device address: six opaque bytes and the kind of address they
/// are. Two addresses are equal when both the bytes and the kind agree.
#[derive(Clone, Copy, Debug, Eq)]
pub struct DeviceAddress {
    pub kind: AddressType,
    pub bytes: [u8; 6],
}

impl DeviceAddress {
    /// An address of the given kind and bytes.
    pub fn new(address_type: AddressType, bytes: [u8; 6]) -> (address: Self)
        ensures
            address.kind == address_type,
            address.bytes == bytes,
    {
        Self { kind: address_type, bytes }
    }

    /// The kind of this address.
    pub fn address_type(&self) -> (kind: AddressType)
        ensures
            kind == self.kind,
    {
        self.kind
    }

    /// The six bytes of this address.
    pub fn bytes(&self) -> (bytes: [u8; 6])
        ensures
            bytes == self.bytes,
    {
        self.bytes
    }
}

impl PartialEqSpecImpl for DeviceAddress {
    open spec fn obeys_eq_spec() -> bool {
        true
    }

    open spec fn eq_spec(&self, other: &DeviceAddress) -> bool {
        *self == *other
    }
}

impl PartialEq for DeviceAddress {
    fn eq(&self, other: &DeviceAddress) -> (same: bool) {
        if self.kind != other.kind {
            return false;
        }
        let mut i: usize = 0;
        while i < 6
            invariant
                i <= 6,
                forall|j: int| 0 <= j < i ==> self.bytes@[j] == other.bytes@[j],
            decreases 6 - i,
        {
            if self.bytes[i] != other.bytes[i] {
                return false;
            }
            i += 1;
        }
        assert(self.bytes =~= other.bytes);
        true
    }
}

} // verus!
