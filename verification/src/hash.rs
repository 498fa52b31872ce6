//! The stable digest from which synthesized class identities are derived.

use std::collections::hash_map::DefaultHasher;
use vstd::prelude::*;
use vstd::std_specs::hash::DefaultHasherAdditionalSpecFns;

verus! {

/// The byte writes that hashing a string slice feeds to a hasher.
pub uninterp spec fn str_hash_writes(s: Seq<char>) -> Seq<Seq<u8>>;

/// The digest of a string under the standard hasher in its initial state.
pub open spec fn spec_hash_string(s: Seq<char>) -> u64 {
    DefaultHasher::spec_finish(str_hash_writes(s))
}

/// `<str as Hash>::hash` on a `DefaultHasher`: the hasher receives a sequence
/// of writes that depends on the characters of `s` alone, appended to what it
/// had received before.
#[verifier::external_body]
fn feed_str(hasher: &mut DefaultHasher, s: &str)
    ensures
        final(hasher)@ == old(hasher)@ + str_hash_writes(s@),
{
    std::hash::Hash::hash(s, hasher)
}

/// Hashes a string with the standard hasher, started from its fixed initial
/// state.
pub fn hash_string(s: &str) -> (digest: u64)
    ensures
        digest == spec_hash_string(s@),
{
    let mut hasher = DefaultHasher::new();
    feed_str(&mut hasher, s);
    assert(hasher@ =~= str_hash_writes(s@));
    std::hash::Hasher::finish(&hasher)
}

} // verus!
