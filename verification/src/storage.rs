//! The operations that every storage backend offers.

use std::sync::Arc;

use bytes::Bytes;
use vstd::prelude::*;

use crate::format::{ByteRange, ObjectId};

pub mod arrival;
pub mod logging;

verus! {

/// `bytes::Bytes`, the shared immutable buffer in which chunk and reference
/// payloads travel. Nothing is assumed of what a buffer holds.
#[verifier::external_type_specification]
#[verifier::external_body]
pub struct ExBytes(bytes::Bytes);

/// Why a storage operation failed.
#[derive(Debug, PartialEq, Eq)]
pub enum StorageError {
    /// Nothing is stored under the identifier or reference name.
    NotFound,
    /// The byte range reaches outside the object.
    InvalidRange,
    /// A reference written without overwrite already has a value.
    AlreadyExists,
    /// The medium failed; the text is the backend's own account of it.
    Io(String),
}

impl Clone for StorageError {
    fn clone(&self) -> (copy: Self)
        ensures
            copy == *self,
    {
        match self {
            StorageError::NotFound => StorageError::NotFound,
            StorageError::InvalidRange => StorageError::InvalidRange,
            StorageError::AlreadyExists => StorageError::AlreadyExists,
            StorageError::Io(detail) => StorageError::Io(detail.clone()),
        }
    }
}

pub type StorageResult<A> = Result<A, StorageError>;

/// A store of immutable objects, addressed by identifier, and of mutable
/// named references with a version history.
///
/// An object, once written under an identifier, is expected to stay as it
/// is; references are the only things that change. The comments on the
/// methods say what a backend is expected to do. None of it is a contract:
/// how a backend behaves depends on a medium that others may share, so of a
/// call's outcome a caller knows only that the backend produced it.
pub trait Storage {
    type Snapshot;

    type AttributesTable;

    type Manifest;

    /// The version history of one reference, produced on demand. It ends,
    /// and a caller may drop it before it has.
    type RefVersions: Iterator<Item = StorageResult<String>>;

    /// The snapshot stored under `id`; `NotFound` when there is none.
    fn fetch_snapshot(&mut self, id: &ObjectId) -> Result<Arc<Self::Snapshot>, StorageError>;

    /// The attributes table stored under `id`; `NotFound` when there is none.
    fn fetch_attributes(&mut self, id: &ObjectId) -> Result<
        Arc<Self::AttributesTable>,
        StorageError,
    >;

    /// The manifest stored under `id`; `NotFound` when there is none.
    fn fetch_manifests(&mut self, id: &ObjectId) -> Result<Arc<Self::Manifest>, StorageError>;

    /// The bytes of the chunk stored under `id` that lie in `range`;
    /// `NotFound` when there is no such chunk, `InvalidRange` when the range
    /// reaches outside it.
    fn fetch_chunk(&mut self, id: &ObjectId, range: &ByteRange) -> Result<Bytes, StorageError>;

    /// Stores a snapshot under `id`. It returns once the snapshot is durable.
    fn write_snapshot(&mut self, id: ObjectId, table: Arc<Self::Snapshot>) -> Result<
        (),
        StorageError,
    >;

    /// Stores an attributes table under `id`.
    fn write_attributes(&mut self, id: ObjectId, table: Arc<Self::AttributesTable>) -> Result<
        (),
        StorageError,
    >;

    /// Stores a manifest under `id`.
    fn write_manifests(&mut self, id: ObjectId, table: Arc<Self::Manifest>) -> Result<
        (),
        StorageError,
    >;

    /// Stores a chunk under `id`.
    fn write_chunk(&mut self, id: ObjectId, bytes: Bytes) -> Result<(), StorageError>;

    /// The current value of the reference `ref_key`; `NotFound` when it has
    /// none.
    fn get_ref(&mut self, ref_key: &str) -> StorageResult<Bytes>;

    /// The names of all references, in no particular order.
    fn ref_names(&mut self) -> StorageResult<Vec<String>>;

    /// Gives the reference `ref_key` a new value. Without `overwrite_refs`
    /// a reference that already has a value is left alone and the call
    /// fails with `AlreadyExists`.
    fn write_ref(&mut self, ref_key: &str, overwrite_refs: bool, bytes: Bytes) -> StorageResult<()>;

    /// The versions of the reference `ref_name`, from the start on each call.
    fn ref_versions(&mut self, ref_name: &str) -> Self::RefVersions;
}

} // verus!
