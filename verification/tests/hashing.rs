use tinypow::digest::{digest_to_int, sha256_digest};
use tinypow::u256::U256;

#[test]
fn digest_matches_known_sha256_vector() {
    // SHA-256("abc") read as a little-endian 256-bit integer.
    let expected = U256::from_limbs(
        0xeacf018fbf1678ba,
        0x2322ae5dde404141,
        0x9c7a1796a36103b0,
        0xad1500f261ff10b4,
    );
    assert_eq!(digest_to_int(b"abc"), expected);
    assert_eq!(sha256_digest("abc"), expected);
}

#[test]
fn digest_is_deterministic() {
    let a = digest_to_int(b"the same bytes");
    let b = digest_to_int(b"the same bytes");
    assert_eq!(a, b);
    let c = sha256_digest("a word list");
    let d = sha256_digest("a word list");
    assert_eq!(c, d);
}

#[test]
fn digest_depends_on_input() {
    assert_ne!(digest_to_int(b"abc"), digest_to_int(b"abd"));
    assert_ne!(digest_to_int(b""), digest_to_int(b"\0"));
}
