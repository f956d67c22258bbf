//! Behavioural tests for the hashing contracts, driven through the FNV-1a
//! 64-bit reference algorithm.

use chksum_hash_core::fnv64::Fnv64;
use chksum_hash_core::{hash, Digest, Finalize, InProgress, Update};

/// Hashing zero bytes reproduces the algorithm's published empty-input value.
#[test]
fn empty_input_digest_matches_published_constant() {
    let digest = hash::<Fnv64>(&[]);
    assert_eq!(
        digest.as_bytes(),
        &[0xcb, 0xf2, 0x9c, 0xe4, 0x84, 0x22, 0x23, 0x25]
    );
    assert_eq!(digest.to_hex_lowercase(), "cbf29ce484222325");
}

/// Known published FNV-1a 64-bit values for small inputs.
#[test]
fn known_vectors() {
    assert_eq!(hash::<Fnv64>(b"a").to_hex_lowercase(), "af63dc4c8601ec8c");
    assert_eq!(
        hash::<Fnv64>(b"foobar").to_hex_lowercase(),
        "85944171f73967e8"
    );
}

/// A digest whose leading nibble is zero still renders two characters per
/// byte.
#[test]
fn leading_zero_byte_keeps_width() {
    let digest = hash::<Fnv64>(b"ab");
    assert_eq!(digest.to_hex_lowercase(), "089c4407b545986a");
    assert_eq!(digest.to_hex_lowercase().len(), 16);
}

/// Hashing the same bytes twice, via two independent instances, yields
/// identical digest bytes.
#[test]
fn determinism() {
    let d1 = hash::<Fnv64>(b"determinism");
    let d2 = hash::<Fnv64>(b"determinism");
    assert_eq!(d1.as_bytes(), d2.as_bytes());
    assert_eq!(d1.to_hex_lowercase(), d2.to_hex_lowercase());
}

/// Splitting the input at any position never changes the digest.
#[test]
fn incremental_equivalence() {
    let whole: &[u8] = b"incremental equivalence";
    let expected = hash::<Fnv64>(whole);
    for split in 0..=whole.len() {
        let (b1, b2) = whole.split_at(split);
        let mut update = chksum_hash_core::default::<Fnv64>();
        update.update(b1);
        update.update(b2);
        assert_eq!(update.digest().as_bytes(), expected.as_bytes());
    }
}

/// The one-call path equals the create-update-digest path.
#[test]
fn one_shot_equivalence() {
    let data: &[u8] = b"one-shot";
    let one_shot = hash::<Fnv64>(data);
    let mut update = chksum_hash_core::default::<Fnv64>();
    update.update(data);
    let manual = update.digest();
    assert_eq!(one_shot.as_bytes(), manual.as_bytes());
}

/// Finalizing twice with no update in between yields equal digests, and
/// updating after a finalize continues from the absorbed content, not from
/// empty.
#[test]
fn finalize_is_not_destructive() {
    let mut update = chksum_hash_core::default::<Fnv64>();
    update.update(b"foo");
    let snap1 = update.finalize();
    let snap2 = update.finalize();
    assert_eq!(snap1.digest().as_bytes(), snap2.digest().as_bytes());
    assert_eq!(
        snap1.digest().as_bytes(),
        hash::<Fnv64>(b"foo").as_bytes()
    );

    update.update(b"bar");
    assert_eq!(
        update.digest().as_bytes(),
        hash::<Fnv64>(b"foobar").as_bytes()
    );
}

/// A snapshot yields the same digest on every call.
#[test]
fn snapshot_digest_is_idempotent() {
    let mut update = chksum_hash_core::default::<Fnv64>();
    update.update(b"snapshot");
    let snap = update.finalize();
    let first = snap.digest();
    let second = snap.digest();
    let third = snap.digest();
    assert_eq!(first.as_bytes(), second.as_bytes());
    assert_eq!(second.as_bytes(), third.as_bytes());
}

/// After an in-place reset, the instance behaves as a freshly created one.
#[test]
fn reset_in_place_equals_fresh() {
    let mut update = chksum_hash_core::default::<Fnv64>();
    update.update(b"stale content");
    update.reset();
    let fresh = chksum_hash_core::default::<Fnv64>();
    assert_eq!(update.digest().as_bytes(), fresh.digest().as_bytes());
    assert_eq!(update.digest().to_hex_lowercase(), "cbf29ce484222325");
}

/// A snapshot's reset gives a fresh in-progress state, rewound to the start,
/// not resumed from the snapshot's position.
#[test]
fn reset_from_snapshot_equals_fresh() {
    let mut update = chksum_hash_core::default::<Fnv64>();
    update.update(b"stale content");
    let snap = update.finalize();
    let mut rewound = snap.reset();
    assert_eq!(
        rewound.digest().as_bytes(),
        hash::<Fnv64>(&[]).as_bytes()
    );
    rewound.update(b"a");
    assert_eq!(rewound.digest().to_hex_lowercase(), "af63dc4c8601ec8c");
}

/// Absorbing an empty byte sequence changes nothing.
#[test]
fn empty_update_changes_nothing() {
    let mut update = chksum_hash_core::default::<Fnv64>();
    update.update(b"abc");
    update.update(b"");
    assert_eq!(
        update.digest().as_bytes(),
        hash::<Fnv64>(b"abc").as_bytes()
    );
}

/// Default-construction gives the same initial state as the library's
/// `default` entry point.
#[test]
fn default_construction_equals_initial_state() {
    let constructed: Fnv64 = Default::default();
    let fresh = chksum_hash_core::default::<Fnv64>();
    assert_eq!(constructed.digest().as_bytes(), fresh.digest().as_bytes());
}

/// The digest length is fixed, whatever the input length.
#[test]
fn digest_length_is_fixed() {
    assert_eq!(hash::<Fnv64>(&[]).as_bytes().len(), 8);
    assert_eq!(hash::<Fnv64>(b"x").as_bytes().len(), 8);
    assert_eq!(hash::<Fnv64>(&[0u8; 1000]).as_bytes().len(), 8);
}
