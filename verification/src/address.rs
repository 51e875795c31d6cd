use vstd::prelude::*;

verus! {

/// Type-safe representation of a pointer-wide value.
///
/// The hart implemented by this crate is a 32-bit machine, so every
/// architectural register holds a value below `2^32`; the memory bus
/// nevertheless addresses a 64-bit physical space, which is why the
/// raw value is a `u64`.
#[derive(Debug, Clone, Copy, Hash, PartialEq, Eq, Structural)]
pub struct Address(pub u64);

impl Address {
    /// Get the NULL address.
    pub fn zero() -> (r: Self)
        ensures
            r.0 == 0,
    {
        Address(0)
    }

    /// The raw value carried by this address.
    pub fn value(self) -> (r: u64)
        ensures
            r == self.0,
    {
        self.0
    }
}

impl From<u64> for Address {
    fn from(x: u64) -> (r: Self) {
        Address(x)
    }
}

impl vstd::std_specs::convert::FromSpecImpl<u64> for Address {
    open spec fn obeys_from_spec() -> bool {
        true
    }

    open spec fn from_spec(x: u64) -> Address {
        Address(x)
    }
}

impl From<u32> for Address {
    fn from(x: u32) -> (r: Self) {
        Address(x as u64)
    }
}

impl vstd::std_specs::convert::FromSpecImpl<u32> for Address {
    open spec fn obeys_from_spec() -> bool {
        true
    }

    open spec fn from_spec(x: u32) -> Address {
        Address(x as u64)
    }
}

impl From<Address> for u64 {
    fn from(x: Address) -> (r: Self) {
        x.0
    }
}

impl vstd::std_specs::convert::FromSpecImpl<Address> for u64 {
    open spec fn obeys_from_spec() -> bool {
        true
    }

    open spec fn from_spec(x: Address) -> u64 {
        x.0
    }
}

} // verus!
