use vstd::prelude::*;

verus! {

/// The Blake2x256 digest of the SCALE encoding of the pair `(caller, count)`.
pub uninterp spec fn blake2_digest_of(caller: Seq<u8>, count: u64) -> Seq<u8>;

/// Relies on `ink_env::hash_encoded::<Blake2x256, _>`: it writes the 32-byte
/// digest of the SCALE encoding of its input, which depends on that input alone.
#[verifier::external_body]
pub(crate) fn salt_digest(caller: &[u8; 32], count: u64) -> (r: [u8; 32])
    ensures
        r@ == blake2_digest_of(caller@, count),
{
    let mut output = [0u8; 32];
    ink_env::hash_encoded::<ink_env::hash::Blake2x256, _>(&(*caller, count), &mut output);
    output
}

} // verus!
