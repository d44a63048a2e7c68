//! Resolution of the secret that all records of a process are made under.
//!
//! The secret is resolved once, from what the operator has configured, and
//! is not changed afterwards. Reading the configuration and keeping the
//! resolved value for the life of the process are left to the caller; what
//! is decided here is which bytes the secret has and whether the operator
//! is to be warned.

use crate::constants::{DEFAULT_SECRET, FALLBACK_WARNING};
use vstd::prelude::*;
use vstd::slice::slice_to_vec;
use vstd::string::{StringExecFns, StringSliceAdditionalSpecFns};
use vstd::utf8::encode_utf8;

verus! {

/// A resolved secret, with the warning that its resolution calls for.
pub struct RuntimeSecret {
    /// The bytes of the secret.
    pub bytes: Vec<u8>,
    /// The warning to emit, once, where the default secret is in use.
    pub warning: Option<String>,
}

impl RuntimeSecret {
    /// Hands the warning out, if one is due and has not been handed out
    /// before. The secret itself is left as it is, and no warning is due
    /// afterwards: however often this is called, the warning is emitted at
    /// most once.
    pub fn take_warning(&mut self) -> (due: Option<String>)
        ensures
            due == old(self).warning,
            final(self).warning is None,
            final(self).bytes == old(self).bytes,
    {
        self.warning.take()
    }
}

/// Whether the default secret comes into use: nothing is configured, or what
/// is configured is empty.
pub open spec fn uses_fallback(configured: Option<&str>) -> bool {
    match configured {
        Some(value) => value@.len() == 0,
        None => true,
    }
}

/// The bytes of the secret that `configured` resolves to: those of the
/// configured value, or those of the default secret where there is none.
pub open spec fn resolved_secret(configured: Option<&str>) -> Seq<u8> {
    match configured {
        Some(value) if value@.len() != 0 => encode_utf8(value@),
        _ => encode_utf8(DEFAULT_SECRET@),
    }
}

/// Resolves the secret from the configured value, if there is one.
///
/// A value that is present and not empty is the secret, byte for byte, and
/// no warning is due. Otherwise the default secret is used and the result
/// carries the warning for the operator.
pub fn runtime_secret(configured: Option<&str>) -> (resolved: RuntimeSecret)
    ensures
        resolved.bytes@ == resolved_secret(configured),
        resolved.warning is Some <==> uses_fallback(configured),
        resolved.warning matches Some(text) ==> text@ == FALLBACK_WARNING@,
{
    match configured {
        Some(value) if !value.is_empty() => RuntimeSecret {
            bytes: slice_to_vec(value.as_bytes()),
            warning: None,
        },
        _ => RuntimeSecret {
            bytes: slice_to_vec(DEFAULT_SECRET.as_bytes()),
            warning: Some(String::from_str(FALLBACK_WARNING)),
        },
    }
}

} // verus!
