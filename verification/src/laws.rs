//! The laws that the hashing contracts guarantee for every algorithm.
//!
//! Each law is stated over the contract model alone — the absorbed byte
//! sequence and the algorithm's digest function — so it holds of any type
//! that satisfies the contracts, with no knowledge of the algorithm itself.

use vstd::prelude::*;
use crate::InProgress;

verus! {

/// Determinism: the digest is a function of the absorbed bytes alone, so two
/// digests of the same byte sequence, from any two independent instances,
/// have identical bytes.
pub proof fn lemma_determinism<U: InProgress>(b: Seq<u8>, d1: Seq<u8>, d2: Seq<u8>)
    requires
        d1 == U::digest_of(b),
        d2 == U::digest_of(b),
    ensures
        d1 == d2,
{
}

/// Incremental equivalence: absorbing `b1` then `b2`, from any starting
/// content, leads to the same digest as absorbing `b1 + b2` in one call, so
/// chunking never changes the result.
pub proof fn lemma_incremental_equivalence<U: InProgress>(start: Seq<u8>, b1: Seq<u8>, b2: Seq<u8>)
    ensures
        U::digest_of((start + b1) + b2) == U::digest_of(start + (b1 + b2)),
{
    assert((start + b1) + b2 =~= start + (b1 + b2));
}

/// One-shot equivalence: a fresh instance that absorbs `b` holds exactly
/// `b`, so the one-call path and the create-update-digest path agree.
pub proof fn lemma_one_shot_equivalence<U: InProgress>(b: Seq<u8>)
    ensures
        U::digest_of(Seq::<u8>::empty() + b) == U::digest_of(b),
{
    assert(Seq::<u8>::empty() + b =~= b);
}

/// Finalize non-destructiveness: finalizing leaves the in-progress content
/// in place, so two snapshots taken from the same content, with no update in
/// between, yield digests with identical bytes.
pub proof fn lemma_finalize_idempotent<U: InProgress>(
    absorbed: Seq<u8>,
    snap1: Seq<u8>,
    snap2: Seq<u8>,
)
    requires
        snap1 == absorbed,
        snap2 == absorbed,
    ensures
        U::digest_of(snap1) == U::digest_of(snap2),
{
}

/// Reset equivalence: an instance that has been reset holds the empty byte
/// sequence, exactly as a freshly created instance does, so the two digest
/// the empty input identically.
pub proof fn lemma_reset_equivalence<U: InProgress>(after_reset: Seq<u8>, fresh: Seq<u8>)
    requires
        after_reset == Seq::<u8>::empty(),
        fresh == Seq::<u8>::empty(),
    ensures
        U::digest_of(after_reset) == U::digest_of(fresh),
        U::digest_of(after_reset).len() == U::digest_len(),
{
    U::digest_of_len(after_reset);
}

} // verus!
