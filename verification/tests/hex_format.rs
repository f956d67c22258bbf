//! Tests for the hexadecimal projections of a digest.

use chksum_hash_core::fnv64::Fnv64;
use chksum_hash_core::{hash, Digest};

fn decode_hex(s: &str) -> Vec<u8> {
    let chars: Vec<char> = s.chars().collect();
    assert_eq!(chars.len() % 2, 0);
    chars
        .chunks(2)
        .map(|pair| {
            let hi = pair[0].to_digit(16).unwrap() as u8;
            let lo = pair[1].to_digit(16).unwrap() as u8;
            16 * hi + lo
        })
        .collect()
}

/// Decoding the lowercase hex string gives the digest bytes back.
#[test]
fn hex_round_trip() {
    for input in [&b""[..], b"a", b"foobar", b"hello world", &[0u8, 255, 16]] {
        let digest = hash::<Fnv64>(input);
        let lower = digest.to_hex_lowercase();
        assert_eq!(decode_hex(&lower), digest.as_bytes());
        let upper = digest.to_hex_uppercase();
        assert_eq!(decode_hex(&upper), digest.as_bytes());
    }
}

/// The uppercase rendering differs from the lowercase one only in letter
/// case.
#[test]
fn upper_is_lower_upcased() {
    let digest = hash::<Fnv64>(b"hello world");
    let lower = digest.to_hex_lowercase();
    let upper = digest.to_hex_uppercase();
    assert_eq!(upper, lower.to_uppercase());
    assert_eq!(lower, upper.to_lowercase());
    assert_eq!(lower, "779a65e7023cd2e7");
    assert_eq!(upper, "779A65E7023CD2E7");
}

/// The rendering is two characters per byte, no prefix, no separators.
#[test]
fn hex_shape() {
    let digest = hash::<Fnv64>(b"shape");
    let lower = digest.to_hex_lowercase();
    assert_eq!(lower.len(), 2 * digest.as_bytes().len());
    assert!(lower.chars().all(|c| c.is_ascii_hexdigit()));
    assert!(!lower.starts_with("0x"));
}
