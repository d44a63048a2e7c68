use api_key_crypto::constants::{
    DEFAULT_SECRET, DIGEST_SIZE, ENCRYPTION_KEY_DOMAIN, MAX_PLAINTEXT_LEN, NONCE_SIZE, SALT_SIZE,
    SECRET_ENV, SUFFIX_CHARS, TAG_SIZE,
};
use api_key_crypto::{derive_encryption_key, hash_key};
use sha2::{Digest, Sha256};

fn salt() -> [u8; 16] {
    let mut salt = [0u8; 16];
    for (i, byte) in salt.iter_mut().enumerate() {
        *byte = i as u8;
    }
    salt
}

#[test]
fn constants_have_the_stored_format_values() {
    assert_eq!(SECRET_ENV, "VOQUILL_API_KEY_SECRET");
    assert_eq!(DEFAULT_SECRET, "voquill-default-secret");
    assert_eq!(ENCRYPTION_KEY_DOMAIN, "voquill-encryption-key-v1");
    assert_eq!(SALT_SIZE, 16);
    assert_eq!(NONCE_SIZE, 12);
    assert_eq!(TAG_SIZE, 16);
    assert_eq!(DIGEST_SIZE, 32);
    assert_eq!(SUFFIX_CHARS, 4);
    assert_eq!(MAX_PLAINTEXT_LEN, 0xffff_fffe * 64);
    assert_eq!(MAX_PLAINTEXT_LEN, 274_877_906_816);
}

#[test]
fn hash_key_is_sha256_of_concatenation() {
    // SHA-256 of "abc".
    let expected: [u8; 32] = [
        0xba, 0x78, 0x16, 0xbf, 0x8f, 0x01, 0xcf, 0xea, 0x41, 0x41, 0x40, 0xde, 0x5d, 0xae, 0x22,
        0x23, 0xb0, 0x03, 0x61, 0xa3, 0x96, 0x17, 0x7a, 0x9c, 0xb4, 0x10, 0xff, 0x61, 0xf2, 0x00,
        0x15, 0xad,
    ];
    assert_eq!(hash_key(b"a", b"b", b"c"), expected);
    assert_eq!(hash_key(b"abc", b"", b""), expected);
    assert_eq!(hash_key(b"", b"ab", b"c"), expected);
}

#[test]
fn hash_key_of_nothing_is_sha256_of_empty_input() {
    let expected: [u8; 32] = [
        0xe3, 0xb0, 0xc4, 0x42, 0x98, 0xfc, 0x1c, 0x14, 0x9a, 0xfb, 0xf4, 0xc8, 0x99, 0x6f, 0xb9,
        0x24, 0x27, 0xae, 0x41, 0xe4, 0x64, 0x9b, 0x93, 0x4c, 0xa4, 0x95, 0x99, 0x1b, 0x78, 0x52,
        0xb8, 0x55,
    ];
    assert_eq!(hash_key(b"", b"", b""), expected);
}

#[test]
fn hash_key_known_value() {
    let expected: [u8; 32] = [
        127, 21, 69, 81, 50, 253, 75, 232, 205, 35, 97, 36, 254, 98, 117, 77, 190, 205, 22, 234,
        38, 155, 81, 3, 232, 58, 223, 57, 69, 180, 246, 135,
    ];
    assert_eq!(hash_key(b"voquill-default-secret", &salt(), b"sk-test-12345678"), expected);
}

#[test]
fn hash_key_matches_incremental_hashing() {
    let mut hasher = Sha256::new();
    hasher.update(b"secret");
    hasher.update(salt());
    hasher.update(b"sk-live-42");
    let expected: [u8; 32] = hasher.finalize().into();
    assert_eq!(hash_key(b"secret", &salt(), b"sk-live-42"), expected);
}

#[test]
fn hash_key_depends_on_each_input() {
    let base = hash_key(b"secret", &salt(), b"key");
    assert_ne!(hash_key(b"secreT", &salt(), b"key"), base);
    assert_ne!(hash_key(b"secret", &[0u8; 16], b"key"), base);
    assert_ne!(hash_key(b"secret", &salt(), b"kez"), base);
}

#[test]
fn derive_encryption_key_known_value() {
    let expected: [u8; 32] = [
        228, 131, 166, 127, 34, 112, 205, 181, 52, 219, 185, 224, 50, 35, 199, 207, 71, 42, 20,
        64, 10, 175, 50, 155, 210, 128, 39, 228, 12, 39, 128, 131,
    ];
    assert_eq!(derive_encryption_key(b"voquill-default-secret", &salt()), expected);
}

#[test]
fn derive_encryption_key_is_sha256_with_domain_tag() {
    let mut hasher = Sha256::new();
    hasher.update(b"voquill-encryption-key-v1");
    hasher.update(b"secret");
    hasher.update(salt());
    let expected: [u8; 32] = hasher.finalize().into();
    assert_eq!(derive_encryption_key(b"secret", &salt()), expected);
}

#[test]
fn encryption_key_differs_from_verification_hash() {
    // Same secret and salt, whatever key the hash is taken of.
    let secret = b"secret";
    let key = derive_encryption_key(secret, &salt());
    assert_ne!(key, hash_key(secret, &salt(), b""));
    assert_ne!(key, hash_key(secret, &salt(), b"voquill-encryption-key-v1"));
    assert_ne!(key, hash_key(secret, &salt(), b"sk-test-12345678"));
}

#[test]
fn encryption_key_puts_the_domain_tag_first() {
    let secret = b"secret";
    assert_eq!(
        derive_encryption_key(secret, &salt()),
        hash_key(b"voquill-encryption-key-v1", secret, &salt())
    );
}

#[test]
fn derivation_is_deterministic() {
    assert_eq!(hash_key(b"s", &salt(), b"k"), hash_key(b"s", &salt(), b"k"));
    assert_eq!(derive_encryption_key(b"s", &salt()), derive_encryption_key(b"s", &salt()));
}
