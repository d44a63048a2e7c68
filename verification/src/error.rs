//! The ways in which revealing a stored key can fail.

use vstd::prelude::*;
use vstd::string::StringExecFns;

verus! {

/// The kind of a failure, without its detail.
#[derive(Clone, Copy, Debug, PartialEq, Eq, Structural)]
pub enum CryptoErrorKind {
    /// The salt or the ciphertext is not base64 text.
    Base64,
    /// The recovered bytes are not UTF-8 text.
    InvalidUtf8,
    /// The ciphertext did not authenticate: wrong secret, wrong salt, or
    /// altered data. Which of these is not told apart.
    DecryptionFailed,
    /// The salt or the ciphertext has an impossible length.
    InvalidData,
}

/// A failure to reveal a stored key. Each variant carries a detail text.
#[derive(Debug)]
pub enum CryptoError {
    /// The salt or the ciphertext is not base64 text.
    Base64(String),
    /// The recovered bytes are not UTF-8 text.
    InvalidUtf8(String),
    /// The ciphertext did not authenticate.
    DecryptionFailed(String),
    /// The salt or the ciphertext has an impossible length.
    InvalidData(String),
}

/// Detail of the failure on a salt that is not `SALT_SIZE` bytes long.
pub const INVALID_SALT_LENGTH: &'static str = "Invalid salt length";

/// Detail of the failure on a ciphertext too short to hold a nonce.
pub const CIPHERTEXT_TOO_SHORT: &'static str = "Ciphertext too short";

/// Detail of every failure to decrypt. It is the cipher's own text, and the
/// same whatever went wrong.
pub const DECRYPTION_REFUSED: &'static str = "aead::Error";

impl CryptoError {
    /// The kind of this failure.
    pub open spec fn spec_kind(&self) -> CryptoErrorKind {
        match self {
            CryptoError::Base64(_) => CryptoErrorKind::Base64,
            CryptoError::InvalidUtf8(_) => CryptoErrorKind::InvalidUtf8,
            CryptoError::DecryptionFailed(_) => CryptoErrorKind::DecryptionFailed,
            CryptoError::InvalidData(_) => CryptoErrorKind::InvalidData,
        }
    }

    /// The detail text of this failure.
    pub open spec fn spec_detail(&self) -> Seq<char> {
        match self {
            CryptoError::Base64(detail) => detail@,
            CryptoError::InvalidUtf8(detail) => detail@,
            CryptoError::DecryptionFailed(detail) => detail@,
            CryptoError::InvalidData(detail) => detail@,
        }
    }

    /// What introduces the detail in the message of a failure of `kind`.
    pub open spec fn prefix_of(kind: CryptoErrorKind) -> Seq<char> {
        match kind {
            CryptoErrorKind::Base64 => "invalid base64 data: "@,
            CryptoErrorKind::InvalidUtf8 => "stored API key is not valid UTF-8: "@,
            CryptoErrorKind::DecryptionFailed => "decryption failed: "@,
            CryptoErrorKind::InvalidData => "invalid data: "@,
        }
    }

    /// The full message of this failure: the prefix of its kind, then its
    /// detail.
    pub open spec fn spec_message(&self) -> Seq<char> {
        Self::prefix_of(self.spec_kind()) + self.spec_detail()
    }

    /// The kind of this failure.
    #[verifier::when_used_as_spec(spec_kind)]
    pub fn kind(&self) -> (kind: CryptoErrorKind)
        ensures
            kind == self.spec_kind(),
    {
        match self {
            CryptoError::Base64(_) => CryptoErrorKind::Base64,
            CryptoError::InvalidUtf8(_) => CryptoErrorKind::InvalidUtf8,
            CryptoError::DecryptionFailed(_) => CryptoErrorKind::DecryptionFailed,
            CryptoError::InvalidData(_) => CryptoErrorKind::InvalidData,
        }
    }

    /// The detail text of this failure.
    pub fn detail(&self) -> (detail: &str)
        ensures
            detail@ == self.spec_detail(),
    {
        match self {
            CryptoError::Base64(detail) => detail.as_str(),
            CryptoError::InvalidUtf8(detail) => detail.as_str(),
            CryptoError::DecryptionFailed(detail) => detail.as_str(),
            CryptoError::InvalidData(detail) => detail.as_str(),
        }
    }

    /// The full message of this failure, as it is shown to a person.
    pub fn message(&self) -> (text: String)
        ensures
            text@ == self.spec_message(),
    {
        let prefix: &str = match self {
            CryptoError::Base64(_) => "invalid base64 data: ",
            CryptoError::InvalidUtf8(_) => "stored API key is not valid UTF-8: ",
            CryptoError::DecryptionFailed(_) => "decryption failed: ",
            CryptoError::InvalidData(_) => "invalid data: ",
        };
        String::from_str(prefix).concat(self.detail())
    }
}

} // verus!
