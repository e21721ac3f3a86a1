//! Account and contract addresses.

use vstd::prelude::*;

verus! {

/// A 20-byte account or contract identifier.
///
/// Two addresses are the same exactly when their bytes are; the all-zero
/// address stands for "no address".
#[derive(Clone, Copy, Debug)]
pub struct Address {
    pub bytes: [u8; 20],
}

impl View for Address {
    type V = Seq<u8>;

    open spec fn view(&self) -> Seq<u8> {
        self.bytes@
    }
}

/// The bytes of the all-zero address.
pub open spec fn zero_address() -> Seq<u8> {
    Seq::new(20, |i: int| 0u8)
}

impl Address {
    /// Wraps twenty bytes as an address.
    pub fn new(bytes: [u8; 20]) -> (res: Address)
        ensures
            res.bytes == bytes,
    {
        Address { bytes }
    }

    /// The all-zero sentinel address.
    pub fn zero() -> (res: Address)
        ensures
            res@ == zero_address(),
    {
        let res = Address { bytes: [0u8; 20] };
        assert(res@ =~= zero_address());
        res
    }

    /// Byte-wise equality.
    pub fn same_as(&self, other: &Address) -> (res: bool)
        ensures
            res == (self@ == other@),
    {
        let mut i: usize = 0;
        while i < 20
            invariant
                i <= 20,
                forall|k: int| 0 <= k < i ==> self.bytes@[k] == other.bytes@[k],
            decreases 20 - i,
        {
            if self.bytes[i] != other.bytes[i] {
                return false;
            }
            i = i + 1;
        }
        assert(self@ =~= other@);
        true
    }

    /// Whether this is the all-zero sentinel.
    pub fn is_zero(&self) -> (res: bool)
        ensures
            res == (self@ == zero_address()),
    {
        let mut i: usize = 0;
        while i < 20
            invariant
                i <= 20,
                forall|k: int| 0 <= k < i ==> self.bytes@[k] == 0u8,
            decreases 20 - i,
        {
            if self.bytes[i] != 0 {
                assert(zero_address()[i as int] == 0u8);
                return false;
            }
            i = i + 1;
        }
        assert(self@ =~= zero_address());
        true
    }
}

impl PartialEq for Address {
    fn eq(&self, other: &Address) -> (res: bool) {
        self.same_as(other)
    }
}

impl Eq for Address {

}

impl vstd::std_specs::cmp::PartialEqSpecImpl for Address {
    open spec fn obeys_eq_spec() -> bool {
        true
    }

    open spec fn eq_spec(&self, other: &Address) -> bool {
        self@ == other@
    }
}

} // verus!
