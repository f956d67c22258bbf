//! Core contracts for batch and stream hash computation.
//!
//! A hash computation passes through three shapes: an in-progress state that
//! absorbs bytes ([`Update`]), an immutable snapshot taken from it
//! ([`Finalize`]), and the final output value ([`Digest`]). The free functions
//! [`default`] and [`hash`] are the generic entry points built from those
//! three contracts. Concrete algorithms supply one type per contract; the
//! contracts pin down, for every algorithm, how the absorbed byte sequence
//! determines the digest.

use vstd::prelude::*;

verus! {

/// The absorb side of an in-progress hash computation.
///
/// The model of an in-progress value is the sequence of bytes absorbed so far
/// (`absorbed`). The algorithm itself is modelled by `digest_of`, the
/// function from an absorbed byte sequence to the digest's byte sequence; its
/// result always has length `digest_len`.
///
/// This base contract stands on its own so that the snapshot contract
/// ([`Finalize`]) can speak of the in-progress type it rewinds to; the full
/// in-progress contract is [`Update`], which adds the snapshot operation.
pub trait InProgress: Sized {
    /// The bytes absorbed so far, in order, across all updates since the
    /// value was created or last reset.
    spec fn absorbed(&self) -> Seq<u8>;

    /// The algorithm's digest, as a byte sequence, for a given sequence of
    /// absorbed bytes.
    spec fn digest_of(b: Seq<u8>) -> Seq<u8>;

    /// The algorithm's fixed digest length in bytes.
    spec fn digest_len() -> nat;

    /// The digest length never varies with the input.
    proof fn digest_of_len(b: Seq<u8>)
        ensures
            Self::digest_of(b).len() == Self::digest_len(),
    ;

    /// Creates the algorithm's initial in-progress state: nothing absorbed.
    fn init() -> (u: Self)
        ensures
            u.absorbed() == Seq::<u8>::empty(),
    ;

    /// Updates the hash state with an input data.
    fn update(&mut self, data: &[u8])
        ensures
            final(self).absorbed() == old(self).absorbed() + data@,
    ;

    /// Resets the hash state to its initial state.
    fn reset(&mut self)
        ensures
            final(self).absorbed() == Seq::<u8>::empty(),
    ;
}

/// A hash object in a finalized state: an immutable snapshot from which a
/// digest can be read repeatedly, or a fresh in-progress state begun.
pub trait Finalize: Sized {
    /// The type representing the digest produced by finalizing the hash.
    type Digest: Digest;

    /// The type representing the in-progress state, which can be finalized
    /// again.
    type Update: InProgress;

    /// The bytes that had been absorbed when this snapshot was taken.
    spec fn absorbed(&self) -> Seq<u8>;

    /// Produces the final digest.
    fn digest(&self) -> (d: Self::Digest)
        ensures
            d.bytes() == <Self::Update as InProgress>::digest_of(self.absorbed()),
            d.bytes().len() == <Self::Update as InProgress>::digest_len(),
    ;

    /// Resets the finalized state to a fresh in-progress state, equivalent to
    /// a newly created one; this rewinds to the start, it does not resume the
    /// snapshot's position.
    fn reset(&self) -> (u: Self::Update)
        ensures
            u.absorbed() == Seq::<u8>::empty(),
    ;
}

/// A hash object in an in-progress state: it absorbs bytes incrementally and
/// can be snapshotted or rewound at any point.
///
/// The absorb operations and the model come from [`InProgress`]; this trait
/// ties them to the paired snapshot and digest types.
pub trait Update: InProgress {
    /// The type representing the digest produced by finalizing the hash.
    type Digest: Digest;

    /// The type representing the finalized state, which can be converted into
    /// a digest.
    type Finalize: Finalize<Digest = Self::Digest, Update = Self>;

    /// Finalizes the hash state into a snapshot, without consuming or
    /// changing the in-progress state.
    fn finalize(&self) -> (f: Self::Finalize)
        ensures
            f.absorbed() == self.absorbed(),
    ;

    /// Produces the hash digest using internal finalization.
    fn digest(&self) -> (d: Self::Digest)
        ensures
            d.bytes() == Self::digest_of(self.absorbed()),
            d.bytes().len() == Self::digest_len(),
    {
        self.finalize().digest()
    }
}

/// A hash digest: a fixed-length byte value with two hexadecimal projections.
pub trait Digest: Sized {
    /// The digest's canonical byte sequence.
    spec fn bytes(&self) -> Seq<u8>;

    /// Returns the digest as a byte slice.
    fn as_bytes(&self) -> (r: &[u8])
        ensures
            r@ == self.bytes(),
    ;

    /// Returns the digest as a lowercase hexadecimal string: two lowercase
    /// hex characters per byte, in byte order, with no prefix or separators.
    fn to_hex_lowercase(&self) -> (r: String)
        ensures
            r@ == crate::hex::hex_lower(self.bytes()),
    ;

    /// Returns the digest as an uppercase hexadecimal string: two uppercase
    /// hex characters per byte, in byte order, with no prefix or separators.
    fn to_hex_uppercase(&self) -> (r: String)
        ensures
            r@ == crate::hex::hex_upper(self.bytes()),
    ;
}

/// Creates a default hash: the algorithm's initial in-progress state.
#[must_use]
pub fn default<U: Update>() -> (u: U)
    ensures
        u.absorbed() == Seq::<u8>::empty(),
{
    U::init()
}

/// Computes the hash of the given input in one call: create, absorb the whole
/// input, digest.
pub fn hash<U: Update>(data: &[u8]) -> (d: U::Digest)
    ensures
        d.bytes() == U::digest_of(data@),
        d.bytes().len() == U::digest_len(),
{
    let mut h: U = default::<U>();
    h.update(data);
    proof {
        assert(h.absorbed() =~= data@);
    }
    h.digest()
}

} // verus!

pub mod fnv64;
pub mod hex;
pub mod laws;
