//! Client that keeps a local, verified copy of a remote settings collection
//! in step with the server.

pub mod changeset;
pub mod client;
pub mod codec;
pub mod errors;
mod json;
pub mod merge;
pub mod record;
pub mod signatures;
pub mod storage;

pub use changeset::{Changeset, CollectionTimestamp};
pub use client::{Client, ClientBuilder, GetStep, SyncState, SyncStep};
pub use errors::{ClientError, ErrorResponse, KintoError};
pub use record::{Collection, Record};
pub use signatures::{DummyVerifier, SignatureError, Verification};
pub use storage::{DummyStorage, MemoryStorage, Storage, StorageError};
