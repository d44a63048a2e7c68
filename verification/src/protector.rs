//! The write path: from a key to the record that is stored in its place.

use crate::constants::{
    DIGEST_SIZE, MAX_PLAINTEXT_LEN, NONCE_SIZE, SALT_SIZE, SUFFIX_CHARS, TAG_SIZE,
};
use crate::derive::{
    append_bytes, derive_encryption_key, encryption_key, hash_key, verification_hash,
};
use crate::error::CryptoErrorKind;
use crate::primitives::{
    aead_encrypt, aead_open, aead_seal, base64_bytes, base64_encode, base64_len, base64_text,
    random_bytes, sealable_len,
};
use crate::revealer::{decrypt_outcome, failed_with, openable_len, reveal_outcome};
use crate::suffix::{compute_key_suffix, key_suffix_of, suffix_matches};
use vstd::pervasive::unreached;
use vstd::prelude::*;
use vstd::string::StringSliceAdditionalSpecFns;
use vstd::utf8::{encode_utf8, encode_utf8_decode_utf8, encode_utf8_valid_utf8};

verus! {

/// What is stored in place of a key. The record is made once and never
/// changed; its first three fields are padded base64 text.
pub struct ProtectedApiKey {
    /// The record's salt, `SALT_SIZE` bytes before encoding.
    pub salt_b64: String,
    /// The verification hash of the key under the secret and the salt.
    pub hash_b64: String,
    /// The nonce, followed by the key sealed under the record's encryption
    /// key and that nonce.
    pub ciphertext_b64: String,
    /// The last characters of the key, for display; absent for an empty key.
    pub key_suffix: Option<String>,
}

/// The ciphertext blob of `plaintext`: the nonce, then the sealed message.
pub open spec fn sealed_blob(
    secret: Seq<u8>,
    salt: Seq<u8>,
    nonce: Seq<u8>,
    plaintext: Seq<u8>,
) -> Seq<u8> {
    nonce + aead_seal(encryption_key(secret, salt), nonce, plaintext)
}

/// Whether `blob` is the ciphertext blob of `plaintext` made with `nonce`,
/// and opens again: the plaintext is one that the cipher can seal, the blob
/// is the nonce followed by the sealed message, it is longer than the
/// plaintext by the nonce and the tag, and the sealed message opens to
/// `plaintext` under the same key and nonce.
pub open spec fn seals(
    blob: Seq<u8>,
    secret: Seq<u8>,
    salt: Seq<u8>,
    nonce: Seq<u8>,
    plaintext: Seq<u8>,
) -> bool {
    let key = encryption_key(secret, salt);
    &&& sealable_len(plaintext.len())
    &&& blob == sealed_blob(secret, salt, nonce, plaintext)
    &&& blob.len() == nonce.len() + plaintext.len() + TAG_SIZE
    &&& aead_open(key, nonce, aead_seal(key, nonce, plaintext)) == Some(plaintext)
}

/// Whether `text` is the stored form of `data`: its base64 text, of four
/// characters for every three bytes begun, which decodes to `data` again.
pub open spec fn stores(text: Seq<char>, data: Seq<u8>) -> bool {
    &&& text == base64_text(data)
    &&& text.len() == base64_len(data.len())
    &&& base64_bytes(text) == Some(data)
}

/// Whether a key of `len` bytes can be protected: the cipher accepts it, and
/// the text of its ciphertext blob has a length that fits in `usize`.
pub open spec fn protectable_len(len: nat) -> bool {
    &&& sealable_len(len)
    &&& base64_len(NONCE_SIZE as nat + len + TAG_SIZE as nat) <= usize::MAX
}

impl ProtectedApiKey {
    /// Whether the fields of this record have the shape of a stored record:
    /// the salt decodes to `SALT_SIZE` bytes, the hash to `DIGEST_SIZE`
    /// bytes, the ciphertext to a blob of a length that the cipher can have
    /// made, the salt and hash texts have the lengths of their encodings,
    /// and a suffix that is present holds between one and `SUFFIX_CHARS`
    /// characters.
    pub open spec fn well_formed(&self) -> bool {
        &&& base64_bytes(self.salt_b64@) matches Some(salt) && salt.len() == SALT_SIZE
        &&& base64_bytes(self.hash_b64@) matches Some(hash) && hash.len() == DIGEST_SIZE
        &&& base64_bytes(self.ciphertext_b64@) matches Some(blob) && openable_len(blob.len())
        &&& self.salt_b64@.len() == base64_len(SALT_SIZE as nat)
        &&& self.hash_b64@.len() == base64_len(DIGEST_SIZE as nat)
        &&& self.key_suffix matches Some(shown) ==> 1 <= shown@.len() <= SUFFIX_CHARS
    }

    /// The salt that this record holds; meaningful for a well-formed record.
    pub open spec fn stored_salt(&self) -> Seq<u8> {
        base64_bytes(self.salt_b64@)->0
    }

    /// The nonce that this record holds, at the head of its ciphertext blob;
    /// meaningful for a well-formed record.
    pub open spec fn stored_nonce(&self) -> Seq<u8> {
        base64_bytes(self.ciphertext_b64@)->0.subrange(0, NONCE_SIZE as int)
    }

    /// Whether this record is the protected form of `key` under `secret`,
    /// made with `salt` and `nonce`: its texts store the salt, the
    /// verification hash and the ciphertext blob of the key's bytes, and its
    /// suffix is that of the key.
    pub open spec fn protects(
        &self,
        secret: Seq<u8>,
        salt: Seq<u8>,
        nonce: Seq<u8>,
        key: Seq<char>,
    ) -> bool {
        let bytes = encode_utf8(key);
        let blob = sealed_blob(secret, salt, nonce, bytes);
        &&& stores(self.salt_b64@, salt)
        &&& stores(self.hash_b64@, verification_hash(secret, salt, bytes))
        &&& stores(self.ciphertext_b64@, blob)
        &&& seals(blob, secret, salt, nonce, bytes)
        &&& suffix_matches(self.key_suffix, key_suffix_of(key))
    }
}

/// Whether `key` is short enough to be protected. Only keys of hundreds of
/// gigabytes, or keys that fill most of the address space, are not.
pub fn can_protect(key: &str) -> (ok: bool)
    ensures
        ok == protectable_len(encode_utf8(key@).len()),
{
    let len: u128 = key.as_bytes().len() as u128;
    len <= MAX_PLAINTEXT_LEN as u128 && (len + 30) / 3 * 4 <= usize::MAX as u128
}

/// Draws a fresh salt from the operating system's secure random source.
pub fn generate_salt() -> (salt: [u8; 16])
    ensures
        salt@.len() == SALT_SIZE,
{
    random_bytes::<16>()
}

/// Draws a fresh nonce from the operating system's secure random source.
pub fn generate_nonce() -> (nonce: [u8; 12])
    ensures
        nonce@.len() == NONCE_SIZE,
{
    random_bytes::<12>()
}

/// Seals `plaintext` under the key derived from `secret` and `salt`, with
/// the given nonce, and puts the nonce in front.
///
/// A nonce must never be used twice with one secret and salt: pass one that
/// was drawn for this call alone.
pub fn encrypt_key(
    secret: &[u8],
    salt: &[u8],
    nonce: &[u8; 12],
    plaintext: &[u8],
) -> (blob: Vec<u8>)
    requires
        sealable_len(plaintext@.len()),
    ensures
        seals(blob@, secret@, salt@, nonce@, plaintext@),
        decrypt_outcome(secret@, salt@, blob@) == Ok::<Seq<u8>, CryptoErrorKind>(plaintext@),
{
    let key = derive_encryption_key(secret, salt);
    let sealed = match aead_encrypt(&key, nonce, plaintext) {
        Ok(sealed) => sealed,
        // The cipher seals every plaintext that fits in its key stream.
        Err(_) => unreached(),
    };
    let mut blob: Vec<u8> = Vec::new();
    append_bytes(&mut blob, nonce.as_slice());
    append_bytes(&mut blob, sealed.as_slice());
    proof {
        assert(blob@ =~= nonce@ + sealed@);
        assert(blob@.subrange(0, NONCE_SIZE as int) =~= nonce@);
        assert(blob@.subrange(NONCE_SIZE as int, blob@.len() as int) =~= sealed@);
    }
    blob
}

/// Builds the record of `key` under `secret` from a given salt and nonce.
///
/// This is all of `protect_api_key` but the drawing of randomness. The
/// record is fixed by the four arguments, and revealing it under the same
/// secret gives `key` back. The salt and the nonce must be fresh: a pair
/// used twice with one secret breaks the cipher's guarantees.
pub fn protect_api_key_with(
    secret: &[u8],
    salt: &[u8; 16],
    nonce: &[u8; 12],
    key: &str,
) -> (record: ProtectedApiKey)
    requires
        protectable_len(encode_utf8(key@).len()),
    ensures
        record.protects(secret@, salt@, nonce@, key@),
        record.well_formed(),
        reveal_outcome(secret@, record.salt_b64@, record.ciphertext_b64@) == Ok::<
            Seq<char>,
            CryptoErrorKind,
        >(key@),
{
    let salt_b64 = base64_encode(salt.as_slice());
    let hash = hash_key(secret, salt.as_slice(), key.as_bytes());
    let ciphertext = encrypt_key(secret, salt.as_slice(), nonce, key.as_bytes());
    let record = ProtectedApiKey {
        salt_b64,
        hash_b64: base64_encode(hash.as_slice()),
        ciphertext_b64: base64_encode(ciphertext.as_slice()),
        key_suffix: compute_key_suffix(key),
    };
    proof {
        lemma_round_trip(record, secret@, salt@, nonce@, key@);
    }
    record
}

/// Protects `key` under `secret` for storage.
///
/// A fresh salt and a fresh nonce are drawn on every call, so that two
/// records of one key agree only by chance. The record is the protected form
/// of `key` for the salt and nonce it holds, and revealing it under the same
/// secret gives `key` back.
pub fn protect_api_key(secret: &[u8], key: &str) -> (record: ProtectedApiKey)
    requires
        protectable_len(encode_utf8(key@).len()),
    ensures
        record.protects(secret@, record.stored_salt(), record.stored_nonce(), key@),
        record.stored_salt().len() == SALT_SIZE,
        record.stored_nonce().len() == NONCE_SIZE,
        record.well_formed(),
        reveal_outcome(secret@, record.salt_b64@, record.ciphertext_b64@) == Ok::<
            Seq<char>,
            CryptoErrorKind,
        >(key@),
{
    let salt = generate_salt();
    let nonce = generate_nonce();
    let record = protect_api_key_with(secret, &salt, &nonce, key);
    proof {
        lemma_record_holds_its_randomness(record, secret@, salt@, nonce@, key@);
    }
    record
}

/// A record holds the salt and the nonce it was made with: the salt as its
/// salt text, the nonce at the head of its ciphertext blob.
pub proof fn lemma_record_holds_its_randomness(
    record: ProtectedApiKey,
    secret: Seq<u8>,
    salt: Seq<u8>,
    nonce: Seq<u8>,
    key: Seq<char>,
)
    requires
        nonce.len() == NONCE_SIZE,
        record.protects(secret, salt, nonce, key),
    ensures
        record.stored_salt() == salt,
        record.stored_nonce() == nonce,
{
    let blob = sealed_blob(secret, salt, nonce, encode_utf8(key));
    assert(blob.subrange(0, NONCE_SIZE as int) =~= nonce);
}

/// The texts of a record have the lengths of their encodings: 24 characters
/// for the salt, and four for every three bytes begun of the nonce, the
/// key's bytes and the tag for the ciphertext.
pub proof fn lemma_stored_text_lengths(
    record: ProtectedApiKey,
    secret: Seq<u8>,
    salt: Seq<u8>,
    nonce: Seq<u8>,
    key: Seq<char>,
)
    requires
        salt.len() == SALT_SIZE,
        nonce.len() == NONCE_SIZE,
        record.protects(secret, salt, nonce, key),
    ensures
        record.salt_b64@.len() == 24,
        record.ciphertext_b64@.len() == base64_len(
            NONCE_SIZE as nat + encode_utf8(key).len() + TAG_SIZE as nat,
        ),
{
}

/// Round trip: a record that protects a key under a secret reveals to that
/// key under the same secret, whatever salt and nonce it was made with.
pub proof fn lemma_round_trip(
    record: ProtectedApiKey,
    secret: Seq<u8>,
    salt: Seq<u8>,
    nonce: Seq<u8>,
    key: Seq<char>,
)
    requires
        salt.len() == SALT_SIZE,
        nonce.len() == NONCE_SIZE,
        record.protects(secret, salt, nonce, key),
    ensures
        reveal_outcome(secret, record.salt_b64@, record.ciphertext_b64@) == Ok::<
            Seq<char>,
            CryptoErrorKind,
        >(key),
{
    let bytes = encode_utf8(key);
    let blob = sealed_blob(secret, salt, nonce, bytes);
    let sealed = aead_seal(encryption_key(secret, salt), nonce, bytes);
    assert(blob.subrange(0, NONCE_SIZE as int) =~= nonce);
    assert(blob.subrange(NONCE_SIZE as int, blob.len() as int) =~= sealed);
    encode_utf8_valid_utf8(key);
    encode_utf8_decode_utf8(key);
}

/// Revealing a well-formed record never fails on its encoding or its
/// lengths, under any secret: it yields a key, or fails to decrypt, or
/// recovers bytes that are not text.
pub proof fn lemma_well_formed_record_decodes(
    record: ProtectedApiKey,
    secret: Seq<u8>,
)
    requires
        record.well_formed(),
    ensures
        ({
            let outcome = reveal_outcome(secret, record.salt_b64@, record.ciphertext_b64@);
            &&& !failed_with(outcome, CryptoErrorKind::Base64)
            &&& !failed_with(outcome, CryptoErrorKind::InvalidData)
        }),
{
}

/// A record is fixed by the secret, the salt, the nonce and the key: two
/// records made of the same four agree in every field.
pub proof fn lemma_record_determined(
    first: ProtectedApiKey,
    second: ProtectedApiKey,
    secret: Seq<u8>,
    salt: Seq<u8>,
    nonce: Seq<u8>,
    key: Seq<char>,
)
    requires
        first.protects(secret, salt, nonce, key),
        second.protects(secret, salt, nonce, key),
    ensures
        first.salt_b64@ == second.salt_b64@,
        first.hash_b64@ == second.hash_b64@,
        first.ciphertext_b64@ == second.ciphertext_b64@,
        first.key_suffix is Some <==> second.key_suffix is Some,
        first.key_suffix is Some ==> first.key_suffix->0@ == second.key_suffix->0@,
{
}

/// The verification hash of a record is determined by the record's own
/// salt: records of one key under one secret and one salt carry the same
/// hash, whatever their nonces, and so whatever their ciphertexts.
pub proof fn lemma_hash_determined_by_salt(
    first: ProtectedApiKey,
    second: ProtectedApiKey,
    secret: Seq<u8>,
    salt: Seq<u8>,
    first_nonce: Seq<u8>,
    second_nonce: Seq<u8>,
    key: Seq<char>,
)
    requires
        first.protects(secret, salt, first_nonce, key),
        second.protects(secret, salt, second_nonce, key),
    ensures
        first.salt_b64@ == second.salt_b64@,
        first.hash_b64@ == second.hash_b64@,
        base64_bytes(first.hash_b64@) == Some(
            verification_hash(secret, first.stored_salt(), encode_utf8(key)),
        ),
{
}

} // verus!
