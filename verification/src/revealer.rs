//! The read path: from the stored salt and ciphertext back to the key.

use crate::constants::{MAX_PLAINTEXT_LEN, NONCE_SIZE, SALT_SIZE, TAG_SIZE};
use crate::derive::{derive_encryption_key, encryption_key};
use crate::error::{
    CryptoError, CryptoErrorKind, CIPHERTEXT_TOO_SHORT, DECRYPTION_REFUSED, INVALID_SALT_LENGTH,
};
use crate::primitives::{
    aead_decrypt, aead_error_text, aead_open, base64_bytes, base64_decode, sealable_len,
    string_from_utf8,
};
use vstd::prelude::*;
use vstd::string::StringExecFns;
use vstd::utf8::{decode_utf8, valid_utf8};

verus! {

/// Whether a ciphertext blob of `len` bytes has a length that the cipher
/// can have made: a nonce, a plaintext that it can seal, and a tag.
pub open spec fn openable_len(len: nat) -> bool {
    &&& len >= NONCE_SIZE + TAG_SIZE
    &&& sealable_len((len - NONCE_SIZE - TAG_SIZE) as nat)
}

/// What opening the ciphertext blob `data` yields under `secret` and `salt`.
///
/// A blob too short to hold a nonce is invalid. Otherwise its first
/// `NONCE_SIZE` bytes are the nonce and the rest is the sealed message,
/// opened under the record's encryption key. A sealed message too short to
/// hold a tag, or longer than the cipher can have made, never opens.
pub open spec fn decrypt_outcome(
    secret: Seq<u8>,
    salt: Seq<u8>,
    data: Seq<u8>,
) -> Result<Seq<u8>, CryptoErrorKind> {
    if data.len() < NONCE_SIZE {
        Err(CryptoErrorKind::InvalidData)
    } else if !openable_len(data.len()) {
        Err(CryptoErrorKind::DecryptionFailed)
    } else {
        match aead_open(
            encryption_key(secret, salt),
            data.subrange(0, NONCE_SIZE as int),
            data.subrange(NONCE_SIZE as int, data.len() as int),
        ) {
            Some(plaintext) => Ok(plaintext),
            None => Err(CryptoErrorKind::DecryptionFailed),
        }
    }
}

/// What decoding the stored texts yields: the salt and the ciphertext blob.
///
/// Both texts must be base64, and the salt must have `SALT_SIZE` bytes. No
/// secret has a part in this.
pub open spec fn decode_outcome(salt_text: Seq<char>, ciphertext_text: Seq<char>) -> Result<
    (Seq<u8>, Seq<u8>),
    CryptoErrorKind,
> {
    match (base64_bytes(salt_text), base64_bytes(ciphertext_text)) {
        (Some(salt), Some(data)) => {
            if salt.len() != SALT_SIZE {
                Err(CryptoErrorKind::InvalidData)
            } else {
                Ok((salt, data))
            }
        },
        _ => Err(CryptoErrorKind::Base64),
    }
}

/// What a decoded record yields under `secret`: the blob is opened, and the
/// bytes recovered must be UTF-8.
pub open spec fn open_outcome(secret: Seq<u8>, salt: Seq<u8>, data: Seq<u8>) -> Result<
    Seq<char>,
    CryptoErrorKind,
> {
    match decrypt_outcome(secret, salt, data) {
        Err(kind) => Err(kind),
        Ok(bytes) => {
            if valid_utf8(bytes) {
                Ok(decode_utf8(bytes))
            } else {
                Err(CryptoErrorKind::InvalidUtf8)
            }
        },
    }
}

/// What revealing yields from the stored texts under `secret`.
///
/// The steps come in this order, and the first that fails decides: both
/// texts are base64; the salt has `SALT_SIZE` bytes; the blob opens; the
/// recovered bytes are UTF-8.
pub open spec fn reveal_outcome(
    secret: Seq<u8>,
    salt_text: Seq<char>,
    ciphertext_text: Seq<char>,
) -> Result<Seq<char>, CryptoErrorKind> {
    match decode_outcome(salt_text, ciphertext_text) {
        Err(kind) => Err(kind),
        Ok(decoded) => open_outcome(secret, decoded.0, decoded.1),
    }
}

/// Whether `outcome` is the failure of kind `kind`.
pub open spec fn failed_with<T>(outcome: Result<T, CryptoErrorKind>, kind: CryptoErrorKind) -> bool {
    outcome matches Err(k) && k == kind
}

/// The detail that goes with an `InvalidData` failure of revealing: it names
/// the salt where the salt is at fault, else the ciphertext.
pub open spec fn invalid_data_detail(salt_text: Seq<char>) -> Seq<char> {
    if base64_bytes(salt_text) matches Some(salt) && salt.len() == SALT_SIZE {
        CIPHERTEXT_TOO_SHORT@
    } else {
        INVALID_SALT_LENGTH@
    }
}

/// Opens the ciphertext blob `data` under the key derived from `secret` and
/// `salt`.
///
/// Fails with `InvalidData` on a blob shorter than a nonce, and with
/// `DecryptionFailed` on one that does not authenticate or that is longer
/// than the cipher can have made. The latter failure is the same value
/// whatever went wrong: it does not tell a wrong key from altered data.
pub fn decrypt_key(
    secret: &[u8],
    salt: &[u8],
    data: &[u8],
) -> (opened: Result<Vec<u8>, CryptoError>)
    ensures
        match opened {
            Ok(plaintext) => {
                &&& decrypt_outcome(secret@, salt@, data@) == Ok::<Seq<u8>, CryptoErrorKind>(
                    plaintext@,
                )
                &&& plaintext@.len() + NONCE_SIZE + TAG_SIZE == data@.len()
            },
            Err(e) => {
                &&& decrypt_outcome(secret@, salt@, data@) == Err::<Seq<u8>, CryptoErrorKind>(
                    e.spec_kind(),
                )
                &&& e is InvalidData ==> e.spec_detail() == CIPHERTEXT_TOO_SHORT@
                &&& e is DecryptionFailed ==> e.spec_detail() == DECRYPTION_REFUSED@
            },
        },
{
    if data.len() < NONCE_SIZE {
        return Err(CryptoError::InvalidData(String::from_str(CIPHERTEXT_TOO_SHORT)));
    }
    let (nonce, sealed) = data.split_at(NONCE_SIZE);
    if sealed.len() as u64 > MAX_PLAINTEXT_LEN + TAG_SIZE as u64 {
        return Err(CryptoError::DecryptionFailed(String::from_str(DECRYPTION_REFUSED)));
    }
    let key = derive_encryption_key(secret, salt);
    match aead_decrypt(&key, nonce, sealed) {
        Ok(plaintext) => Ok(plaintext),
        Err(err) => Err(CryptoError::DecryptionFailed(aead_error_text(&err))),
    }
}

/// Decodes the stored salt and ciphertext of a record, and measures the
/// salt. This is the part of revealing that needs no secret.
///
/// Fails with `Base64` where either text is not base64, and with
/// `InvalidData` where the salt has not `SALT_SIZE` bytes.
pub fn decode_stored(
    salt_b64: &str,
    ciphertext_b64: &str,
) -> (decoded: Result<(Vec<u8>, Vec<u8>), CryptoError>)
    ensures
        match decoded {
            Ok(parts) => decode_outcome(salt_b64@, ciphertext_b64@) == Ok::<
                (Seq<u8>, Seq<u8>),
                CryptoErrorKind,
            >((parts.0@, parts.1@)),
            Err(e) => {
                &&& decode_outcome(salt_b64@, ciphertext_b64@) == Err::<
                    (Seq<u8>, Seq<u8>),
                    CryptoErrorKind,
                >(e.spec_kind())
                &&& e is InvalidData ==> e.spec_detail() == INVALID_SALT_LENGTH@
            },
        },
{
    let salt = match base64_decode(salt_b64) {
        Ok(salt) => salt,
        Err(err) => {
            return Err(CryptoError::Base64(err.to_string()));
        },
    };
    let data = match base64_decode(ciphertext_b64) {
        Ok(data) => data,
        Err(err) => {
            return Err(CryptoError::Base64(err.to_string()));
        },
    };
    if salt.len() != SALT_SIZE {
        return Err(CryptoError::InvalidData(String::from_str(INVALID_SALT_LENGTH)));
    }
    Ok((salt, data))
}

/// Recovers a key from the decoded salt and ciphertext blob of its record,
/// under the secret the record was made with. This is the part of revealing
/// that comes after `decode_stored`.
pub fn reveal_decoded(
    secret: &[u8],
    salt: &[u8],
    data: &[u8],
) -> (revealed: Result<String, CryptoError>)
    ensures
        match revealed {
            Ok(key) => open_outcome(secret@, salt@, data@) == Ok::<Seq<char>, CryptoErrorKind>(
                key@,
            ),
            Err(e) => {
                &&& open_outcome(secret@, salt@, data@) == Err::<Seq<char>, CryptoErrorKind>(
                    e.spec_kind(),
                )
                &&& e is InvalidData ==> e.spec_detail() == CIPHERTEXT_TOO_SHORT@
                &&& e is DecryptionFailed ==> e.spec_detail() == DECRYPTION_REFUSED@
            },
        },
{
    let plaintext = decrypt_key(secret, salt, data)?;
    match string_from_utf8(plaintext) {
        Ok(key) => Ok(key),
        Err(err) => Err(CryptoError::InvalidUtf8(err.to_string())),
    }
}

/// Recovers a key from the stored salt and ciphertext of its record.
///
/// `secret` is the secret under which the record was made. The result is
/// `reveal_outcome` of the three: the key, or the kind of the first step
/// that failed.
pub fn reveal_api_key(
    secret: &[u8],
    salt_b64: &str,
    ciphertext_b64: &str,
) -> (revealed: Result<String, CryptoError>)
    ensures
        match revealed {
            Ok(key) => reveal_outcome(secret@, salt_b64@, ciphertext_b64@) == Ok::<
                Seq<char>,
                CryptoErrorKind,
            >(key@),
            Err(e) => {
                &&& reveal_outcome(secret@, salt_b64@, ciphertext_b64@) == Err::<
                    Seq<char>,
                    CryptoErrorKind,
                >(e.spec_kind())
                &&& e is InvalidData ==> e.spec_detail() == invalid_data_detail(salt_b64@)
                &&& e is DecryptionFailed ==> e.spec_detail() == DECRYPTION_REFUSED@
            },
        },
{
    let (salt, data) = decode_stored(salt_b64, ciphertext_b64)?;
    reveal_decoded(secret, salt.as_slice(), data.as_slice())
}

/// A salt that decodes to any length but `SALT_SIZE` is refused as invalid
/// data, whatever the secret and whatever the ciphertext holds: nothing is
/// opened before the salt has been measured.
pub proof fn lemma_salt_length_enforced(
    secret: Seq<u8>,
    salt_text: Seq<char>,
    ciphertext_text: Seq<char>,
)
    requires
        base64_bytes(salt_text) matches Some(salt) && salt.len() != SALT_SIZE,
        base64_bytes(ciphertext_text) is Some,
    ensures
        failed_with(
            reveal_outcome(secret, salt_text, ciphertext_text),
            CryptoErrorKind::InvalidData,
        ),
{
}

/// Each outcome of revealing comes on exactly the inputs that reach it: a
/// failure where its step refuses and the steps before it have passed, the
/// key where every step has passed.
pub proof fn lemma_outcome_conditions(
    secret: Seq<u8>,
    salt_text: Seq<char>,
    ciphertext_text: Seq<char>,
)
    ensures
        ({
            let outcome = reveal_outcome(secret, salt_text, ciphertext_text);
            let salt = base64_bytes(salt_text);
            let data = base64_bytes(ciphertext_text);
            let decoded = salt is Some && data is Some;
            let salted = decoded && salt->0.len() == SALT_SIZE;
            let opened = decrypt_outcome(secret, salt->0, data->0);
            &&& failed_with(outcome, CryptoErrorKind::Base64) <==> !decoded
            &&& failed_with(outcome, CryptoErrorKind::InvalidData) <==> decoded && (!salted
                || data->0.len() < NONCE_SIZE)
            &&& failed_with(outcome, CryptoErrorKind::DecryptionFailed) <==> salted
                && data->0.len() >= NONCE_SIZE && opened is Err
            &&& failed_with(outcome, CryptoErrorKind::InvalidUtf8) <==> salted && opened is Ok
                && !valid_utf8(opened->Ok_0)
            &&& outcome is Ok <==> salted && opened is Ok && valid_utf8(opened->Ok_0)
        }),
{
}

/// Where the cipher refuses the sealed message of a decoded record, under
/// whatever secret, revealing fails to decrypt: it gives no key and no other
/// kind of failure. This holds of an altered blob and of a wrong secret
/// alike, and the failure does not tell them apart.
pub proof fn lemma_refused_blob_fails_decryption(
    secret: Seq<u8>,
    salt_text: Seq<char>,
    ciphertext_text: Seq<char>,
)
    requires
        base64_bytes(salt_text) matches Some(salt) && salt.len() == SALT_SIZE,
        base64_bytes(ciphertext_text) matches Some(data) && data.len() >= NONCE_SIZE,
        aead_open(
            encryption_key(secret, base64_bytes(salt_text)->0),
            base64_bytes(ciphertext_text)->0.subrange(0, NONCE_SIZE as int),
            base64_bytes(ciphertext_text)->0.subrange(
                NONCE_SIZE as int,
                base64_bytes(ciphertext_text)->0.len() as int,
            ),
        ) is None,
    ensures
        failed_with(
            reveal_outcome(secret, salt_text, ciphertext_text),
            CryptoErrorKind::DecryptionFailed,
        ),
{
}

/// A ciphertext that decodes to fewer bytes than a nonce is refused as
/// invalid data, whatever the secret and the salt.
pub proof fn lemma_short_ciphertext_rejected(
    secret: Seq<u8>,
    salt_text: Seq<char>,
    ciphertext_text: Seq<char>,
)
    requires
        base64_bytes(salt_text) is Some,
        base64_bytes(ciphertext_text) matches Some(data) && data.len() < NONCE_SIZE,
    ensures
        failed_with(
            reveal_outcome(secret, salt_text, ciphertext_text),
            CryptoErrorKind::InvalidData,
        ),
{
}

/// A ciphertext that holds a nonce but whose sealed message has no room
/// for a tag, or is longer than the cipher can have made, never reveals a
/// key: under a salt of the right length it fails to decrypt.
pub proof fn lemma_ciphertext_of_impossible_length_fails(
    secret: Seq<u8>,
    salt_text: Seq<char>,
    ciphertext_text: Seq<char>,
)
    requires
        base64_bytes(salt_text) matches Some(salt) && salt.len() == SALT_SIZE,
        base64_bytes(ciphertext_text) matches Some(data) && NONCE_SIZE <= data.len()
            && !openable_len(data.len()),
    ensures
        failed_with(
            reveal_outcome(secret, salt_text, ciphertext_text),
            CryptoErrorKind::DecryptionFailed,
        ),
{
}

} // verus!
