use vstd::prelude::*;

verus! {

/// Number of bytes in an identity.
pub const IDENTITY_LEN: usize = 32;

/// The public key of a party: an influencer, a brand, the oracle or the
/// registry's administrator. All zero bytes is the "unset" value, which no
/// party holds.
#[derive(Clone, Copy, Debug)]
pub struct Identity {
    pub bytes: [u8; 32],
}

impl Identity {
    pub open spec fn is_unset_spec(self) -> bool {
        forall|i: int| 0 <= i < 32 ==> #[trigger] self.bytes@[i] == 0u8
    }

    /// Builds the identity with the given key bytes.
    pub fn new(bytes: [u8; 32]) -> (r: Identity)
        ensures
            r.bytes == bytes,
    {
        Identity { bytes }
    }

    /// The unset identity (all zero bytes).
    pub fn unset() -> (r: Identity)
        ensures
            r.is_unset_spec(),
    {
        Identity { bytes: [0u8; 32] }
    }

    /// Whether this is the unset identity.
    pub fn is_unset(&self) -> (r: bool)
        ensures
            r == self.is_unset_spec(),
    {
        let mut i: usize = 0;
        while i < IDENTITY_LEN
            invariant
                i <= 32,
                forall|k: int| 0 <= k < i ==> #[trigger] self.bytes@[k] == 0u8,
            decreases 32 - i,
        {
            if self.bytes[i] != 0 {
                return false;
            }
            i = i + 1;
        }
        true
    }

    /// Whether two identities are the same key.
    pub fn same(&self, other: &Identity) -> (r: bool)
        ensures
            r == (*self == *other),
    {
        let mut i: usize = 0;
        while i < IDENTITY_LEN
            invariant
                i <= 32,
                forall|k: int| 0 <= k < i ==> #[trigger] self.bytes@[k] == other.bytes@[k],
            decreases 32 - i,
        {
            if self.bytes[i] != other.bytes[i] {
                return false;
            }
            i = i + 1;
        }
        assert(self.bytes@ =~= other.bytes@);
        assert(self.bytes == other.bytes);
        true
    }
}

impl PartialEq for Identity {
    fn eq(&self, other: &Identity) -> (r: bool) {
        self.same(other)
    }
}

impl vstd::std_specs::cmp::PartialEqSpecImpl for Identity {
    open spec fn obeys_eq_spec() -> bool {
        true
    }

    open spec fn eq_spec(&self, other: &Identity) -> bool {
        *self == *other
    }
}

impl Eq for Identity {
}

} // verus!
