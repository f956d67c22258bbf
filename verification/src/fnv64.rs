//! A reference algorithm satisfying the hashing contracts: 64-bit FNV-1a.
//!
//! FNV-1a keeps a single 64-bit word of state. It starts from a fixed offset
//! basis and, for every absorbed byte, xors the byte into the state and then
//! multiplies the state by a fixed prime, modulo `2^64`. The digest is the
//! final state as eight bytes, most significant first. The empty input's
//! digest is the offset basis itself.
//!
//! The implementation carries the absorbed byte sequence as ghost state; a
//! type invariant ties the running word to the fold of the step function over
//! that sequence.

use vstd::prelude::*;
use crate::{Digest, Finalize, InProgress, Update};

verus! {

/// The FNV-1a 64-bit offset basis: the state before any byte is absorbed.
pub const FNV64_OFFSET_BASIS: u64 = 0xcbf2_9ce4_8422_2325;

/// The FNV-1a 64-bit prime.
pub const FNV64_PRIME: u64 = 0x0000_0100_0000_01b3;

/// One FNV-1a step: xor the byte in, multiply by the prime modulo `2^64`.
pub open spec fn fnv64_step(state: u64, byte: u8) -> u64 {
    ((((state ^ (byte as u64)) as int) * (FNV64_PRIME as int)) % 0x1_0000_0000_0000_0000) as u64
}

/// The state after absorbing a byte sequence, starting from the offset basis.
pub open spec fn fnv64_state(b: Seq<u8>) -> u64
    decreases b.len(),
{
    if b.len() == 0 {
        FNV64_OFFSET_BASIS
    } else {
        fnv64_step(fnv64_state(b.drop_last()), b.last())
    }
}

/// A 64-bit word as eight bytes, most significant first.
pub open spec fn be_bytes_u64(x: u64) -> Seq<u8> {
    seq![
        ((x >> 56) & 0xff) as u8,
        ((x >> 48) & 0xff) as u8,
        ((x >> 40) & 0xff) as u8,
        ((x >> 32) & 0xff) as u8,
        ((x >> 24) & 0xff) as u8,
        ((x >> 16) & 0xff) as u8,
        ((x >> 8) & 0xff) as u8,
        (x & 0xff) as u8,
    ]
}

/// The FNV-1a 64-bit digest of a byte sequence.
pub open spec fn fnv64_digest_of(b: Seq<u8>) -> Seq<u8> {
    be_bytes_u64(fnv64_state(b))
}

/// An FNV-1a 64-bit computation in progress.
pub struct Fnv64 {
    state: u64,
    bytes_seen: Ghost<Seq<u8>>,
}

/// An FNV-1a 64-bit snapshot, taken by finalizing an in-progress value.
#[derive(Clone, Copy)]
pub struct Fnv64Finalize {
    state: u64,
    bytes_seen: Ghost<Seq<u8>>,
}

/// An FNV-1a 64-bit digest: eight bytes, most significant first.
pub struct Fnv64Digest {
    raw: Vec<u8>,
}

impl Fnv64 {
    #[verifier::type_invariant]
    spec fn state_matches_bytes(&self) -> bool {
        self.state == fnv64_state(self.bytes_seen@)
    }
}

impl Fnv64Finalize {
    #[verifier::type_invariant]
    spec fn state_matches_bytes(&self) -> bool {
        self.state == fnv64_state(self.bytes_seen@)
    }
}

/// One exec FNV-1a step, equal to the spec step.
fn fnv64_step_exec(state: u64, byte: u8) -> (r: u64)
    ensures
        r == fnv64_step(state, byte),
{
    let x: u64 = state ^ (byte as u64);
    let wide: u128 = (x as u128) * (FNV64_PRIME as u128);
    let low: u128 = wide % 0x1_0000_0000_0000_0000u128;
    low as u64
}

/// The state as eight bytes, most significant first, equal to the spec
/// rendering.
fn be_bytes_u64_exec(x: u64) -> (v: Vec<u8>)
    ensures
        v@ == be_bytes_u64(x),
{
    let mut v: Vec<u8> = Vec::new();
    proof {
        assert(((x >> 56) & 0xff) < 256) by (bit_vector);
        assert(((x >> 48) & 0xff) < 256) by (bit_vector);
        assert(((x >> 40) & 0xff) < 256) by (bit_vector);
        assert(((x >> 32) & 0xff) < 256) by (bit_vector);
        assert(((x >> 24) & 0xff) < 256) by (bit_vector);
        assert(((x >> 16) & 0xff) < 256) by (bit_vector);
        assert(((x >> 8) & 0xff) < 256) by (bit_vector);
        assert((x & 0xff) < 256) by (bit_vector);
    }
    v.push(((x >> 56) & 0xff) as u8);
    v.push(((x >> 48) & 0xff) as u8);
    v.push(((x >> 40) & 0xff) as u8);
    v.push(((x >> 32) & 0xff) as u8);
    v.push(((x >> 24) & 0xff) as u8);
    v.push(((x >> 16) & 0xff) as u8);
    v.push(((x >> 8) & 0xff) as u8);
    v.push((x & 0xff) as u8);
    proof {
        assert(v@ =~= be_bytes_u64(x));
    }
    v
}

impl Default for Fnv64 {
    /// Default-construction gives the algorithm's initial state, the same
    /// value `init` gives.
    fn default() -> (u: Self)
        ensures
            u.absorbed() == Seq::<u8>::empty(),
    {
        Fnv64 { state: FNV64_OFFSET_BASIS, bytes_seen: Ghost(Seq::<u8>::empty()) }
    }
}

impl InProgress for Fnv64 {
    closed spec fn absorbed(&self) -> Seq<u8> {
        self.bytes_seen@
    }

    open spec fn digest_of(b: Seq<u8>) -> Seq<u8> {
        fnv64_digest_of(b)
    }

    open spec fn digest_len() -> nat {
        8
    }

    proof fn digest_of_len(b: Seq<u8>) {
    }

    fn init() -> (u: Self) {
        Fnv64 { state: FNV64_OFFSET_BASIS, bytes_seen: Ghost(Seq::<u8>::empty()) }
    }

    fn update(&mut self, data: &[u8]) {
        proof {
            use_type_invariant(&*self);
        }
        let ghost prev: Seq<u8> = self.bytes_seen@;
        let mut st: u64 = self.state;
        let mut i: usize = 0;
        proof {
            assert(prev + data@.take(0) =~= prev);
        }
        while i < data.len()
            invariant
                i <= data@.len(),
                st == fnv64_state(prev + data@.take(i as int)),
            decreases data@.len() - i,
        {
            let b = data[i];
            st = fnv64_step_exec(st, b);
            proof {
                let t = prev + data@.take(i + 1);
                assert(t.drop_last() =~= prev + data@.take(i as int));
                assert(t.last() == b);
            }
            i += 1;
        }
        proof {
            assert(prev + data@.take(data@.len() as int) =~= prev + data@);
        }
        *self = Fnv64 { state: st, bytes_seen: Ghost(prev + data@) };
    }

    fn reset(&mut self) {
        *self = Fnv64 { state: FNV64_OFFSET_BASIS, bytes_seen: Ghost(Seq::<u8>::empty()) };
    }
}

impl Update for Fnv64 {
    type Digest = Fnv64Digest;

    type Finalize = Fnv64Finalize;

    fn finalize(&self) -> (f: Fnv64Finalize) {
        proof {
            use_type_invariant(&*self);
        }
        let f = Fnv64Finalize { state: self.state, bytes_seen: self.bytes_seen };
        proof {
            assert(f.absorbed() == self.absorbed());
        }
        f
    }
}

impl Finalize for Fnv64Finalize {
    type Digest = Fnv64Digest;

    type Update = Fnv64;

    closed spec fn absorbed(&self) -> Seq<u8> {
        self.bytes_seen@
    }

    fn digest(&self) -> (d: Fnv64Digest) {
        proof {
            use_type_invariant(&*self);
        }
        let d = Fnv64Digest { raw: be_bytes_u64_exec(self.state) };
        proof {
            assert(d.bytes() == be_bytes_u64(self.state));
            assert(Fnv64::digest_of(self.absorbed()) == be_bytes_u64(
                fnv64_state(self.bytes_seen@),
            ));
        }
        d
    }

    fn reset(&self) -> (u: Fnv64) {
        Fnv64 { state: FNV64_OFFSET_BASIS, bytes_seen: Ghost(Seq::<u8>::empty()) }
    }
}

impl Digest for Fnv64Digest {
    closed spec fn bytes(&self) -> Seq<u8> {
        self.raw@
    }

    fn as_bytes(&self) -> (r: &[u8]) {
        self.raw.as_slice()
    }

    fn to_hex_lowercase(&self) -> (r: String) {
        crate::hex::encode_lowercase(self.raw.as_slice())
    }

    fn to_hex_uppercase(&self) -> (r: String) {
        crate::hex::encode_uppercase(self.raw.as_slice())
    }
}

/// The digest of the empty input is the offset basis, rendered as eight
/// bytes, most significant first: the algorithm's published empty-input
/// value.
pub proof fn lemma_fnv64_empty_digest()
    ensures
        fnv64_digest_of(Seq::<u8>::empty()) == seq![
            0xcbu8,
            0xf2u8,
            0x9cu8,
            0xe4u8,
            0x84u8,
            0x22u8,
            0x23u8,
            0x25u8,
        ],
{
    assert(fnv64_state(Seq::<u8>::empty()) == FNV64_OFFSET_BASIS);
    let x: u64 = 0xcbf2_9ce4_8422_2325;
    assert(((0xcbf2_9ce4_8422_2325u64 >> 56) & 0xff) == 0xcb) by (bit_vector);
    assert(((0xcbf2_9ce4_8422_2325u64 >> 48) & 0xff) == 0xf2) by (bit_vector);
    assert(((0xcbf2_9ce4_8422_2325u64 >> 40) & 0xff) == 0x9c) by (bit_vector);
    assert(((0xcbf2_9ce4_8422_2325u64 >> 32) & 0xff) == 0xe4) by (bit_vector);
    assert(((0xcbf2_9ce4_8422_2325u64 >> 24) & 0xff) == 0x84) by (bit_vector);
    assert(((0xcbf2_9ce4_8422_2325u64 >> 16) & 0xff) == 0x22) by (bit_vector);
    assert(((0xcbf2_9ce4_8422_2325u64 >> 8) & 0xff) == 0x23) by (bit_vector);
    assert((0xcbf2_9ce4_8422_2325u64 & 0xff) == 0x25) by (bit_vector);
    assert(be_bytes_u64(x) =~= seq![
        0xcbu8,
        0xf2u8,
        0x9cu8,
        0xe4u8,
        0x84u8,
        0x22u8,
        0x23u8,
        0x25u8,
    ]);
}

} // verus!
