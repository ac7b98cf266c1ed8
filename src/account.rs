use vstd::prelude::*;

verus! {

/// A 32-byte identity: a user, a collection contract or the marketplace itself.
#[derive(Clone, Copy, Debug, PartialEq, Eq)]
pub struct AccountId(pub [u8; 32]);

/// A 32-byte code hash of the collection template used by the factory.
#[derive(Clone, Copy, Debug, PartialEq, Eq)]
pub struct CodeHash(pub [u8; 32]);

/// Byte-wise equality of two 32-byte arrays.
fn same_bytes(a: &[u8; 32], b: &[u8; 32]) -> (r: bool)
    ensures
        r == (*a == *b),
{
    let mut i: usize = 0;
    while i < 32
        invariant
            0 <= i <= 32,
            forall|j: int| 0 <= j < i ==> a@[j] == b@[j],
        decreases 32 - i,
    {
        if a[i] != b[i] {
            assert(a@[i as int] != b@[i as int]);
            return false;
        }
        i += 1;
    }
    assert(a@ =~= b@);
    proof {
        vstd::array::axiom_array_ext_equal(*a, *b);
    }
    true
}

/// Whether two identities are the same.
pub fn same_account(a: &AccountId, b: &AccountId) -> (r: bool)
    ensures
        r == (*a == *b),
{
    same_bytes(&a.0, &b.0)
}

/// A code hash of all zeros stands for "no template configured".
pub open spec fn unset(h: CodeHash) -> bool {
    forall|j: int| 0 <= j < 32 ==> h.0@[j] == 0u8
}

/// Whether a code hash is the all-zero default.
pub fn is_unset_hash(h: &CodeHash) -> (r: bool)
    ensures
        r == unset(*h),
{
    let mut i: usize = 0;
    while i < 32
        invariant
            0 <= i <= 32,
            forall|j: int| 0 <= j < i ==> h.0@[j] == 0u8,
        decreases 32 - i,
    {
        if h.0[i] != 0u8 {
            return false;
        }
        i += 1;
    }
    true
}

} // verus!
