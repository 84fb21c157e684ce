//! Failures of the remote source and the one error type of the client.

use vstd::prelude::*;
use vstd::string::StringExecFns;

use crate::signatures::SignatureError;
use crate::storage::StorageError;

verus! {

/// Body of an error answer of the remote service.
#[derive(Clone, Debug, PartialEq)]
pub struct ErrorResponse {
    pub code: u16,
    pub errno: u16,
    pub error: String,
    pub message: String,
    pub info: String,
}

/// Failure of the remote source.
#[derive(Clone, Debug, PartialEq)]
pub enum KintoError {
    /// The service answered with a server-side error status.
    ServerError { name: String, response: Option<ErrorResponse>, retry_after: Option<u64> },
    /// The service answered with a client-side error status.
    ClientError { name: String, response: Option<ErrorResponse> },
    /// The answer could not be understood.
    ContentError { name: String },
    /// The bucket/collection pair is not known to the service.
    UnknownCollection { bucket: String, collection: String },
}

/// The one error type surfaced by the client.
#[derive(Clone, Debug, PartialEq)]
pub enum ClientError {
    VerificationError { name: String },
    StorageError { name: String },
    APIError { name: String, response: Option<ErrorResponse> },
}

/// Message of the API error reported for an unknown bucket/collection pair.
pub open spec fn unknown_collection_message(bucket: Seq<char>, collection: Seq<char>) -> Seq<char> {
    "Unknown collection "@ + bucket + "/"@ + collection
}

/// `r` is the API error that stands for the remote failure `e`.
pub open spec fn api_error_of(e: KintoError, r: ClientError) -> bool {
    match e {
        KintoError::ServerError { name, response, .. } => r == (ClientError::APIError { name, response }),
        KintoError::ClientError { name, response } => r == (ClientError::APIError { name, response }),
        KintoError::ContentError { name } => r == (ClientError::APIError { name, response: None }),
        KintoError::UnknownCollection { bucket, collection } => match r {
            ClientError::APIError { name, response } => name@ == unknown_collection_message(
                bucket@,
                collection@,
            ) && response is None,
            _ => false,
        },
    }
}

/// `r` is the storage error that stands for `e`.
pub open spec fn storage_error_of(e: StorageError, r: ClientError) -> bool {
    match e {
        StorageError::ReadError { name } => r == (ClientError::StorageError { name }),
        StorageError::Error { name } => r == (ClientError::StorageError { name }),
    }
}

/// `r` is the verification error that stands for `e`.
pub open spec fn verification_error_of(e: SignatureError, r: ClientError) -> bool {
    match e {
        SignatureError::CertificateError { name } => r == (ClientError::VerificationError { name }),
        SignatureError::VerificationError { name } => r == (ClientError::VerificationError { name }),
        SignatureError::InvalidSignature { name } => r == (ClientError::VerificationError { name }),
    }
}

impl ClientError {
    /// Maps a failure of the remote source to an API error, keeping its message.
    pub fn from_kinto(err: KintoError) -> (r: ClientError)
        ensures
            api_error_of(err, r),
    {
        match err {
            KintoError::ServerError { name, response, .. } => ClientError::APIError { name, response },
            KintoError::ClientError { name, response } => ClientError::APIError { name, response },
            KintoError::ContentError { name } => ClientError::APIError { name, response: None },
            KintoError::UnknownCollection { bucket, collection } => {
                let mut name = String::from_str("Unknown collection ");
                name.append(bucket.as_str());
                name.append("/");
                name.append(collection.as_str());
                proof {
                    reveal_strlit("Unknown collection ");
                    reveal_strlit("/");
                }
                ClientError::APIError { name, response: None }
            },
        }
    }

    /// Maps a failure of the persistence to a storage error, keeping its message.
    pub fn from_storage(err: StorageError) -> (r: ClientError)
        ensures
            storage_error_of(err, r),
    {
        match err {
            StorageError::ReadError { name } => ClientError::StorageError { name },
            StorageError::Error { name } => ClientError::StorageError { name },
        }
    }

    /// Maps a failure of the signature check to a verification error, keeping its message.
    pub fn from_signature(err: SignatureError) -> (r: ClientError)
        ensures
            verification_error_of(err, r),
    {
        match err {
            SignatureError::CertificateError { name } => ClientError::VerificationError { name },
            SignatureError::VerificationError { name } => ClientError::VerificationError { name },
            SignatureError::InvalidSignature { name } => ClientError::VerificationError { name },
        }
    }

    /// The message carried by the error.
    pub open spec fn message(self) -> Seq<char> {
        match self {
            ClientError::VerificationError { name } => name@,
            ClientError::StorageError { name } => name@,
            ClientError::APIError { name, .. } => name@,
        }
    }
}

impl From<StorageError> for ClientError {
    fn from(err: StorageError) -> (r: ClientError) {
        ClientError::from_storage(err)
    }
}

impl vstd::std_specs::convert::FromSpecImpl<StorageError> for ClientError {
    open spec fn obeys_from_spec() -> bool {
        true
    }

    open spec fn from_spec(v: StorageError) -> ClientError {
        match v {
            StorageError::ReadError { name } => ClientError::StorageError { name },
            StorageError::Error { name } => ClientError::StorageError { name },
        }
    }
}

impl From<SignatureError> for ClientError {
    fn from(err: SignatureError) -> (r: ClientError) {
        ClientError::from_signature(err)
    }
}

impl vstd::std_specs::convert::FromSpecImpl<SignatureError> for ClientError {
    open spec fn obeys_from_spec() -> bool {
        true
    }

    open spec fn from_spec(v: SignatureError) -> ClientError {
        match v {
            SignatureError::CertificateError { name } => ClientError::VerificationError { name },
            SignatureError::VerificationError { name } => ClientError::VerificationError { name },
            SignatureError::InvalidSignature { name } => ClientError::VerificationError { name },
        }
    }
}

/// The message for an unknown collection is built at run time, so no spec
/// value stands for the result: `ClientError::from_kinto` states the mapping.
impl From<KintoError> for ClientError {
    fn from(err: KintoError) -> (r: ClientError) {
        ClientError::from_kinto(err)
    }
}

impl vstd::std_specs::convert::FromSpecImpl<KintoError> for ClientError {
    open spec fn obeys_from_spec() -> bool {
        false
    }

    open spec fn from_spec(v: KintoError) -> ClientError {
        choose|r: ClientError| api_error_of(v, r)
    }
}

} // verus!
