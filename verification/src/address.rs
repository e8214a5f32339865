use vstd::prelude::*;

verus! {

broadcast use vstd::array::group_array_axioms;

/// A 32-byte account address (a public key).
#[derive(Clone, Copy, Debug, PartialEq, Eq)]
pub struct Address {
    pub bytes: [u8; 32],
}

impl Address {
    /// The address made of the given bytes.
    pub fn new(bytes: [u8; 32]) -> (r: Address)
        ensures
            r.bytes == bytes,
    {
        Address { bytes }
    }

    /// The bytes of the address, in order, as a seed.
    pub open spec fn seed(self) -> Seq<u8> {
        self.bytes@
    }

    /// Whether two addresses are the same account.
    pub fn same_as(&self, other: &Address) -> (r: bool)
        ensures
            r == (*self == *other),
    {
        let mut i: usize = 0;
        while i < 32
            invariant
                i <= 32,
                forall|j: int| 0 <= j < i ==> self.bytes[j] == other.bytes[j],
            decreases 32 - i,
        {
            if self.bytes[i] != other.bytes[i] {
                return false;
            }
            i = i + 1;
        }
        assert(self.bytes =~= other.bytes);
        true
    }

    /// The bytes of the address as a vector.
    pub fn to_seed(&self) -> (r: Vec<u8>)
        ensures
            r@ == self.seed(),
    {
        let mut v: Vec<u8> = Vec::new();
        v.extend_from_slice(&self.bytes);
        v
    }
}

/// Whether an optional address holds exactly `key`.
pub open spec fn holds(opt: Option<Address>, key: Address) -> bool {
    opt == Some(key)
}

/// Whether an optional address holds exactly `key`.
pub fn option_holds(opt: &Option<Address>, key: &Address) -> (r: bool)
    ensures
        r == holds(*opt, *key),
{
    match opt {
        Some(a) => a.same_as(key),
        None => false,
    }
}

} // verus!
