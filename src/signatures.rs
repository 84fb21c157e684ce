//! The signature check that the caller supplies.

use vstd::prelude::*;

use crate::record::Collection;

verus! {

/// Failure of a signature check.
#[derive(Clone, Debug, PartialEq)]
pub enum SignatureError {
    CertificateError { name: String },
    VerificationError { name: String },
    InvalidSignature { name: String },
}

/// Proves that a collection is authentic; supplied by the caller.
pub trait Verification {
    fn verify(&self, collection: &Collection) -> Result<(), SignatureError>;
}

/// A verifier that accepts every collection.
pub struct DummyVerifier {}

impl Verification for DummyVerifier {
    fn verify(&self, collection: &Collection) -> (r: Result<(), SignatureError>)
    {
        Ok(())
    }
}

} // verus!
