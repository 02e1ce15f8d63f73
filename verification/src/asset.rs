//! Value types: what is swapped and who the parties are.

use vstd::prelude::*;

verus! {

/// A 32-byte value that names an order.
pub type OrderId = [u8; 32];

/// A 32-byte public-key-shaped identifier. It is only ever compared and
/// passed on; no cryptographic operation is performed on it here.
pub type Identity = [u8; 32];

/// A transferable resource: a token type and a quantity of it.
#[derive(Clone, Copy, Debug, PartialEq, Eq)]
pub struct Asset {
    pub token_type: [u8; 32],
    pub amount: u64,
}

/// Byte-wise equality of two 32-byte values.
pub fn same_bytes(left: &[u8; 32], right: &[u8; 32]) -> (same: bool)
    ensures
        same == (*left == *right),
{
    let mut i: usize = 0;
    while i < 32
        invariant
            i <= 32,
            forall|k: int| 0 <= k < i ==> left[k] == right[k],
        decreases 32 - i,
    {
        if left[i] != right[i] {
            return false;
        }
        i += 1;
    }
    assert(*left =~= *right);
    true
}

impl Asset {
    /// Two assets are interchangeable exactly when every field is equal:
    /// same token type, same amount, no unit conversion.
    pub fn interchangeable_with(&self, other: &Asset) -> (same: bool)
        ensures
            same == (*self == *other),
    {
        self.amount == other.amount && same_bytes(&self.token_type, &other.token_type)
    }
}

} // verus!
