//! Checking the signature of a catalog.

use vstd::prelude::*;

verus! {

/// Why a catalog could not be verified.
#[derive(Debug, Clone, Copy, PartialEq, Eq, Structural)]
pub enum VerifyError {
    /// The signature is not one of the catalog's key over the catalog's bytes.
    BadSignature,
}

} // verus!
