//! The cryptographic and encoding primitives this library builds on, and what
//! is taken on trust about them.
//!
//! Nothing in this file is proved. Each function here makes one call into a
//! crate that implements a primitive, and its contract records what that
//! crate's source and documentation say of the call. The rest of the library
//! is verified against these contracts.

use base64::Engine;
use chacha20poly1305::aead::{Aead, KeyInit, OsRng};
use chacha20poly1305::{ChaCha20Poly1305, Key, Nonce};
use rand::RngCore;
use sha2::{Digest, Sha256};
use vstd::prelude::*;
use vstd::utf8::{decode_utf8, valid_utf8};

verus! {

/// Why `base64` rejected a text.
#[verifier::external_type_specification]
#[verifier::external_body]
pub struct ExDecodeError(base64::DecodeError);

/// The one error of authenticated encryption; it carries no detail.
#[verifier::external_type_specification]
#[verifier::external_body]
pub struct ExAeadError(chacha20poly1305::aead::Error);

/// Why bytes were rejected as UTF-8.
#[verifier::external_type_specification]
#[verifier::external_body]
pub struct ExFromUtf8Error(std::string::FromUtf8Error);

/// The SHA-256 digest of `data`.
pub uninterp spec fn sha256(data: Seq<u8>) -> Seq<u8>;

/// ChaCha20-Poly1305 applied to `plaintext` under `key` and `nonce`, with no
/// associated data: the encrypted bytes followed by the tag.
pub uninterp spec fn aead_seal(key: Seq<u8>, nonce: Seq<u8>, plaintext: Seq<u8>) -> Seq<u8>;

/// What ChaCha20-Poly1305 recovers from `sealed` under `key` and `nonce`,
/// with no associated data; `None` where `sealed` does not authenticate.
pub uninterp spec fn aead_open(key: Seq<u8>, nonce: Seq<u8>, sealed: Seq<u8>) -> Option<Seq<u8>>;

/// The padded base64 text of `data` in the standard alphabet.
pub uninterp spec fn base64_text(data: Seq<u8>) -> Seq<char>;

/// The bytes that `text` stands for as padded base64 in the standard
/// alphabet; `None` where `text` is not such a text.
pub uninterp spec fn base64_bytes(text: Seq<char>) -> Option<Seq<u8>>;

/// Characters in the padded base64 text of `len` bytes.
pub open spec fn base64_len(len: nat) -> nat {
    (len + 2) / 3 * 4
}

/// Whether ChaCha20-Poly1305 can seal a message of `len` bytes. The key
/// stream of one nonce has `0xffff_ffff` blocks of 64 bytes; the first is
/// spent on the key of the tag, and the message must fit in the rest.
pub open spec fn sealable_len(len: nat) -> bool {
    len <= 0xffff_fffe * 64
}

/// Calls `Sha256::digest` of `sha2`.
///
/// Trusted: the result is the SHA-256 digest of `data`, a function of
/// `data` alone.
#[verifier::external_body]
pub(crate) fn sha256_digest(data: &[u8]) -> (digest: [u8; 32])
    ensures
        digest@ == sha256(data@),
{
    Sha256::digest(data).into()
}

/// Calls `Aead::encrypt`, which `chacha20poly1305` hands on from `aead`, on
/// a `ChaCha20Poly1305` cipher made from `key` by `KeyInit::new`.
///
/// Trusted: on a plaintext that fits in the key stream the call succeeds.
/// The result is the sealed message, a function of key, nonce and plaintext
/// alone; it is 16 bytes longer than the plaintext; and opening it under the
/// same key and nonce recovers the plaintext. A longer plaintext is left
/// out: on it the call fails, or panics where the key stream runs out under
/// way.
#[verifier::external_body]
pub(crate) fn aead_encrypt(
    key: &[u8; 32],
    nonce: &[u8; 12],
    plaintext: &[u8],
) -> (sealed: Result<Vec<u8>, chacha20poly1305::aead::Error>)
    requires
        sealable_len(plaintext@.len()),
    ensures
        sealed is Ok,
        sealed matches Ok(c) ==> c@ == aead_seal(key@, nonce@, plaintext@),
        sealed matches Ok(c) ==> c@.len() == plaintext@.len() + 16,
        sealed matches Ok(c) ==> aead_open(key@, nonce@, c@) == Some(plaintext@),
{
    let cipher = ChaCha20Poly1305::new(Key::from_slice(key));
    cipher.encrypt(Nonce::from_slice(nonce), plaintext)
}

/// Calls `Aead::decrypt`, which `chacha20poly1305` hands on from `aead`, on
/// a `ChaCha20Poly1305` cipher made from `key` by `KeyInit::new`.
///
/// Trusted: success or failure, and the bytes recovered, are a function of
/// key, nonce and sealed message alone. A sealed message shorter than its
/// 16-byte tag is refused, and what is recovered is 16 bytes shorter than
/// the sealed message. The nonce must be 12 bytes long, or the call panics.
/// A sealed message of more than a sealable plaintext and its tag is left
/// out: the call panics on one that authenticates, where the key stream
/// runs out under way.
#[verifier::external_body]
pub(crate) fn aead_decrypt(
    key: &[u8; 32],
    nonce: &[u8],
    sealed: &[u8],
) -> (opened: Result<Vec<u8>, chacha20poly1305::aead::Error>)
    requires
        nonce@.len() == 12,
        sealed@.len() <= 0xffff_fffe * 64 + 16,
    ensures
        opened matches Ok(p) ==> aead_open(key@, nonce@, sealed@) == Some(p@),
        opened matches Ok(p) ==> p@.len() + 16 == sealed@.len(),
        opened is Err ==> aead_open(key@, nonce@, sealed@) is None,
        sealed@.len() < 16 ==> opened is Err,
{
    let cipher = ChaCha20Poly1305::new(Key::from_slice(key));
    cipher.decrypt(Nonce::from_slice(nonce), sealed)
}

/// Renders the error of `aead` through its `Display`, by `to_string`.
///
/// Trusted: the text is always `aead::Error`.
#[verifier::external_body]
pub(crate) fn aead_error_text(err: &chacha20poly1305::aead::Error) -> (text: String)
    ensures
        text@ == "aead::Error"@,
{
    err.to_string()
}

/// Calls `Engine::encode` of `base64` on the `STANDARD` engine.
///
/// Trusted: the result is the padded base64 text of `data`, a function of
/// `data` alone; it has four characters for every three bytes begun; and
/// decoding it gives `data` back. The call panics where that length does not
/// fit in `usize`.
#[verifier::external_body]
pub(crate) fn base64_encode(data: &[u8]) -> (text: String)
    requires
        base64_len(data@.len()) <= usize::MAX,
    ensures
        text@ == base64_text(data@),
        text@.len() == base64_len(data@.len()),
        base64_bytes(text@) == Some(data@),
{
    base64::engine::general_purpose::STANDARD.encode(data)
}

/// Calls `Engine::decode` of `base64` on the `STANDARD` engine.
///
/// Trusted: success or failure, and the bytes decoded, are a function of
/// `text` alone.
#[verifier::external_body]
pub(crate) fn base64_decode(text: &str) -> (decoded: Result<Vec<u8>, base64::DecodeError>)
    ensures
        decoded matches Ok(d) ==> base64_bytes(text@) == Some(d@),
        decoded is Err ==> base64_bytes(text@) is None,
{
    base64::engine::general_purpose::STANDARD.decode(text)
}

/// Calls `String::from_utf8`.
///
/// Trusted: the call succeeds exactly on well-formed UTF-8, and the string
/// then holds the characters that the bytes encode.
#[verifier::external_body]
pub(crate) fn string_from_utf8(
    bytes: Vec<u8>,
) -> (text: Result<String, std::string::FromUtf8Error>)
    ensures
        text is Ok <==> valid_utf8(bytes@),
        text matches Ok(s) ==> s@ == decode_utf8(bytes@),
{
    String::from_utf8(bytes)
}

/// Calls `RngCore::fill_bytes` on `OsRng`, the operating system's secure
/// random source, over a fresh array.
///
/// Nothing is claimed of the bytes. The call panics where the operating
/// system cannot supply them.
#[verifier::external_body]
pub(crate) fn random_bytes<const N: usize>() -> [u8; N] {
    let mut bytes = [0u8; N];
    OsRng.fill_bytes(&mut bytes);
    bytes
}

} // verus!
