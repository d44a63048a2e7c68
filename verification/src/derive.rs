//! Key derivation: the verification hash of a key and the encryption key of
//! a record, both SHA-256 over the secret and the record's salt.

use crate::constants::{DIGEST_SIZE, ENCRYPTION_KEY_DOMAIN};
use crate::primitives::{sha256, sha256_digest};
use vstd::prelude::*;
use vstd::string::StringSliceAdditionalSpecFns;
use vstd::utf8::encode_utf8;

verus! {

/// The bytes of the domain tag.
pub open spec fn domain_tag() -> Seq<u8> {
    encode_utf8(ENCRYPTION_KEY_DOMAIN@)
}

/// The verification hash of `key` under `secret` and `salt`: the digest of
/// the three, in that order.
pub open spec fn verification_hash(secret: Seq<u8>, salt: Seq<u8>, key: Seq<u8>) -> Seq<u8> {
    sha256(secret + salt + key)
}

/// The encryption key of a record under `secret` and `salt`: the digest of
/// the domain tag, the secret and the salt, in that order.
pub open spec fn encryption_key(secret: Seq<u8>, salt: Seq<u8>) -> Seq<u8> {
    sha256(domain_tag() + secret + salt)
}

/// Appends `part` to `buffer`.
pub(crate) fn append_bytes(buffer: &mut Vec<u8>, part: &[u8])
    ensures
        final(buffer)@ == old(buffer)@ + part@,
{
    buffer.extend_from_slice(part);
    assert(buffer@ =~= old(buffer)@ + part@);
}

/// Computes the verification hash of `key` under `secret` and `salt`.
///
/// The hash is compared for equality only; the key cannot be had from it.
pub fn hash_key(secret: &[u8], salt: &[u8], key: &[u8]) -> (hash: [u8; 32])
    ensures
        hash@ == verification_hash(secret@, salt@, key@),
        hash@.len() == DIGEST_SIZE,
{
    let mut input: Vec<u8> = Vec::new();
    append_bytes(&mut input, secret);
    append_bytes(&mut input, salt);
    append_bytes(&mut input, key);
    assert(input@ =~= secret@ + salt@ + key@);
    sha256_digest(input.as_slice())
}

/// Derives the encryption key of a record from `secret` and `salt`.
///
/// The domain tag keeps this digest apart from the verification hash, which
/// is taken over the same secret and salt.
pub fn derive_encryption_key(secret: &[u8], salt: &[u8]) -> (key: [u8; 32])
    ensures
        key@ == encryption_key(secret@, salt@),
        key@.len() == DIGEST_SIZE,
{
    let mut input: Vec<u8> = Vec::new();
    append_bytes(&mut input, ENCRYPTION_KEY_DOMAIN.as_bytes());
    append_bytes(&mut input, secret);
    append_bytes(&mut input, salt);
    assert(input@ =~= domain_tag() + secret@ + salt@);
    sha256_digest(input.as_slice())
}

} // verus!
