//! Protection of API keys for storage: a salted verification hash, an
//! authenticated ciphertext from which the key can be recovered, and a short
//! suffix that may be shown to the user.
//!
//! `protect_api_key` makes the record that is stored in place of a key, and
//! `reveal_api_key` recovers the key from it. Both work under a secret that
//! `runtime_secret` resolves from the operator's configuration.

pub mod constants;
pub mod derive;
pub mod error;
pub mod primitives;
pub mod protector;
pub mod revealer;
pub mod secret;
pub mod suffix;

pub use crate::derive::{derive_encryption_key, hash_key};
pub use crate::error::{CryptoError, CryptoErrorKind};
pub use crate::protector::{
    can_protect, encrypt_key, generate_nonce, generate_salt, protect_api_key,
    protect_api_key_with, ProtectedApiKey,
};
pub use crate::revealer::{decode_stored, decrypt_key, reveal_api_key, reveal_decoded};
pub use crate::secret::{runtime_secret, RuntimeSecret};
pub use crate::suffix::compute_key_suffix;
