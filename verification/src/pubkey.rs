//! Identities: owners, managers, depositors and the assets they deal in.

use vstd::prelude::*;
use vstd::std_specs::cmp::PartialEqSpecImpl;

verus! {

/// A 32-byte identity. The ledger never looks inside one: it only asks
/// whether two of them are the same.
#[derive(Clone, Copy, Debug, Eq, Hash)]
pub struct Pubkey(pub [u8; 32]);

impl Pubkey {
    /// Whether this is the all-zero key, which marks a vacant slot.
    pub open spec fn is_default(&self) -> bool {
        forall|i: int| 0 <= i < 32 ==> self.0[i] == 0u8
    }
}

impl PartialEq for Pubkey {
    fn eq(&self, other: &Self) -> (same: bool) {
        let mut i: usize = 0;
        while i < 32
            invariant
                i <= 32,
                forall|j: int| 0 <= j < i ==> self.0[j] == other.0[j],
            decreases 32 - i,
        {
            if self.0[i] != other.0[i] {
                return false;
            }
            i += 1;
        }
        assert(self.0 =~= other.0);
        true
    }
}

impl PartialEqSpecImpl for Pubkey {
    open spec fn obeys_eq_spec() -> bool {
        true
    }

    open spec fn eq_spec(&self, other: &Self) -> bool {
        *self == *other
    }
}

impl Default for Pubkey {
    /// The all-zero key.
    fn default() -> (key: Self)
        ensures
            key.is_default(),
    {
        Pubkey([0u8; 32])
    }
}

/// There is only one all-zero key.
pub proof fn lemma_default_is_unique(a: Pubkey, b: Pubkey)
    requires
        a.is_default(),
        b.is_default(),
    ensures
        a == b,
{
    assert(a.0 =~= b.0);
}

} // verus!
