//! Apple CT log catalog source.
//!
//! Apple does not publish a detached signature for this catalog. Authenticity
//! rests on the TLS-authenticated fetch of `valid.apple.com`. Apple therefore
//! has no detached-signature verifier and is non-runtime-authoritative by
//! default. Apple-only logs reach the runtime only via an explicit
//! `custom_logs` or `static_logs` declaration.

use vstd::prelude::*;

use crate::ct::catalog::verify::VerifyError;
use crate::ct::catalog::SignedCatalog;

verus! {

/// The catalog that Apple publishes.
pub struct Apple;

impl SignedCatalog for Apple {
    fn name(&self) -> (name: &'static str)
        ensures
            name@ == "apple"@,
    {
        "apple"
    }

    fn code_default_runtime_authoritative(&self) -> (authoritative: bool)
        ensures
            !authoritative,
    {
        false
    }

    fn list_url(&self) -> (url: &'static str)
        ensures
            url@ == "https://valid.apple.com/ct/log_list/current_log_list.json"@,
    {
        "https://valid.apple.com/ct/log_list/current_log_list.json"
    }

    /// No detached signature exists: the catalog is one of an unverified source, which is
    /// never handed to [`SignedCatalog::verify`].
    fn sig_url(&self) -> (url: Option<&'static str>)
        ensures
            url is None,
    {
        None
    }

    fn expected_key_fingerprint(&self) -> (fingerprint: Option<&'static str>)
        ensures
            fingerprint is None,
    {
        None
    }

    /// An Apple catalog can never produce a verified signature.
    fn verify(&self, _bytes: &[u8], _sig: &[u8]) -> (verified: Result<(), VerifyError>)
        ensures
            verified == Err::<(), VerifyError>(VerifyError::BadSignature),
    {
        Err(VerifyError::BadSignature)
    }
}

} // verus!
