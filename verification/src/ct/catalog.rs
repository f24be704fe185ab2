//! Catalogs of CT logs.

use vstd::prelude::*;

use crate::ct::catalog::verify::VerifyError;

pub mod apple;
pub mod verify;

verus! {

/// A published list of CT logs.
pub trait SignedCatalog {
    /// The catalog's name.
    fn name(&self) -> &'static str;

    /// Whether the server takes up logs on this catalog's word alone, unless configured
    /// otherwise.
    fn code_default_runtime_authoritative(&self) -> bool;

    /// Where the list is published.
    fn list_url(&self) -> &'static str;

    /// Where the list's detached signature is published, if there is one.
    fn sig_url(&self) -> Option<&'static str>;

    /// The fingerprint of the key that signs the list, if it is signed.
    fn expected_key_fingerprint(&self) -> Option<&'static str>;

    /// Checks the list's bytes against a detached signature.
    fn verify(&self, bytes: &[u8], sig: &[u8]) -> Result<(), VerifyError>;
}

} // verus!
