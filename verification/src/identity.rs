//! Opaque caller and owner identities.

use vstd::prelude::*;

verus! {

/// An opaque, fixed-size public identifier for a caller or owner. The host
/// environment authenticates it upstream; the registry only compares
/// identities for equality.
#[derive(Clone, Copy, Debug, PartialEq, Eq)]
pub struct Identity {
    pub bytes: [u8; 32],
}

impl Identity {
    /// Builds an identity from its raw public bytes.
    pub fn new(bytes: [u8; 32]) -> (r: Identity)
        ensures
            r.bytes == bytes,
    {
        Identity { bytes }
    }

    /// Equality on identities, byte for byte.
    pub fn same_as(&self, other: &Identity) -> (r: bool)
        ensures
            r <==> *self == *other,
    {
        let mut i: usize = 0;
        while i < 32
            invariant
                i <= 32,
                forall|k: int| 0 <= k < i ==> self.bytes[k] == other.bytes[k],
            decreases 32 - i,
        {
            if self.bytes[i] != other.bytes[i] {
                assert(self.bytes != other.bytes);
                return false;
            }
            i += 1;
        }
        proof {
            assert(self.bytes =~= other.bytes);
        }
        true
    }
}

} // verus!
