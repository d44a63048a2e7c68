//! Sizes and fixed byte strings of the storage format. Changing any of them
//! invalidates every record stored before the change.

use vstd::prelude::*;

verus! {

/// Name of the environment variable from which the operator's secret is read.
pub const SECRET_ENV: &'static str = "VOQUILL_API_KEY_SECRET";

/// The secret used where the operator has configured none. It is public
/// knowledge and protects nothing.
pub const DEFAULT_SECRET: &'static str = "voquill-default-secret";

/// The advice given once when the default secret comes into use.
pub const FALLBACK_WARNING: &'static str =
    "VOQUILL_API_KEY_SECRET not set; falling back to default secret. Set this environment variable to secure stored API keys.";

/// Domain tag mixed into the hash that yields the encryption key, so that
/// this hash differs from the verification hash over the same secret and salt.
pub const ENCRYPTION_KEY_DOMAIN: &'static str = "voquill-encryption-key-v1";

/// Bytes of salt in a record.
pub const SALT_SIZE: usize = 16;

/// Bytes of nonce at the head of a ciphertext blob.
pub const NONCE_SIZE: usize = 12;

/// Bytes of authentication tag at the end of a ciphertext blob.
pub const TAG_SIZE: usize = 16;

/// The most bytes that the cipher seals under one nonce. The key stream of a
/// nonce has `0xffff_ffff` blocks of 64 bytes, and the first of them is spent
/// on the key of the tag.
pub const MAX_PLAINTEXT_LEN: u64 = 0x3f_ffff_ff80;

/// Bytes of a verification hash and of an encryption key.
pub const DIGEST_SIZE: usize = 32;

/// Characters of a key that may be shown to the user.
pub const SUFFIX_CHARS: usize = 4;

} // verus!
