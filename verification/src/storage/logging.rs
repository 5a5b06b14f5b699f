//! A decorator that records every read made through it.

use std::sync::Arc;

use bytes::Bytes;
use vstd::prelude::*;

use crate::format::{ByteRange, ObjectId};
use crate::storage::{Storage, StorageError, StorageResult};

verus! {

/// The four operations that read an immutable object.
#[derive(Clone, Copy, Debug, PartialEq, Eq)]
pub enum FetchKind {
    Snapshot,
    Attributes,
    Manifests,
    Chunk,
}

impl FetchKind {
    /// The name under which a read of this kind is logged.
    pub open spec fn label(self) -> Seq<char> {
        match self {
            FetchKind::Snapshot => "fetch_snapshot"@,
            FetchKind::Attributes => "fetch_attributes"@,
            FetchKind::Manifests => "fetch_manifests"@,
            FetchKind::Chunk => "fetch_chunk"@,
        }
    }

    /// The name under which a read of this kind is logged.
    pub fn name(&self) -> (name: String)
        ensures
            name@ == self.label(),
    {
        match self {
            FetchKind::Snapshot => "fetch_snapshot".to_owned(),
            FetchKind::Attributes => "fetch_attributes".to_owned(),
            FetchKind::Manifests => "fetch_manifests".to_owned(),
            FetchKind::Chunk => "fetch_chunk".to_owned(),
        }
    }
}

/// What a log holds: for each read, in the order the reads arrived, the
/// operation's name and the identifier that was asked for.
pub type Entries = Seq<(Seq<char>, Seq<char>)>;

/// The entry that a read of `kind` on the identifier `id` leaves in a log.
pub open spec fn entry_of(kind: FetchKind, id: Seq<char>) -> (Seq<char>, Seq<char>) {
    (kind.label(), id)
}

/// The reads attempted so far, oldest first. A log only ever grows.
#[derive(Debug)]
pub struct FetchLog {
    entries: Vec<(String, ObjectId)>,
}

impl View for FetchLog {
    type V = Entries;

    closed spec fn view(&self) -> Entries {
        self.entries.deep_view()
    }
}

impl FetchLog {
    /// The empty log.
    pub fn new() -> (log: Self)
        ensures
            log@ == Entries::empty(),
    {
        let log = FetchLog { entries: Vec::new() };
        assert(log.entries.deep_view() =~= Entries::empty());
        log
    }

    /// Appends one entry for a read of `kind` on `id`.
    pub fn record(&mut self, kind: FetchKind, id: &ObjectId)
        ensures
            final(self)@ == old(self)@.push(entry_of(kind, id@)),
    {
        self.entries.push((kind.name(), id.clone()));
        assert(self.entries.deep_view() =~= old(self).entries.deep_view().push(
            entry_of(kind, id@),
        ));
    }

    /// A copy of the log as it stands.
    pub fn operations(&self) -> (copy: Vec<(String, ObjectId)>)
        ensures
            copy.deep_view() == self@,
    {
        let mut copy: Vec<(String, ObjectId)> = Vec::new();
        let mut i: usize = 0;
        while i < self.entries.len()
            invariant
                i <= self.entries.len(),
                copy.len() == i,
                forall|j: int| 0 <= j < i ==> copy[j] == self.entries[j],
            decreases self.entries.len() - i,
        {
            let entry = &self.entries[i];
            copy.push((entry.0.clone(), entry.1.clone()));
            i += 1;
        }
        assert(copy@ =~= self.entries@);
        copy
    }
}

/// A storage that hands every operation to the backend it wraps, unchanged,
/// and keeps a log of the reads that were attempted through it.
#[derive(Debug)]
pub struct LoggingStorage<S: Storage> {
    backend: S,
    fetch_log: FetchLog,
}

impl<S: Storage> LoggingStorage<S> {
    /// The wrapped backend.
    pub closed spec fn backend(self) -> S {
        self.backend
    }

    /// The reads attempted so far, oldest first.
    pub closed spec fn log(self) -> Entries {
        self.fetch_log@
    }

    /// Wraps `backend`; nothing has been read yet.
    pub fn new(backend: S) -> (storage: Self)
        ensures
            storage.backend() == backend,
            storage.log() == Entries::empty(),
    {
        LoggingStorage { backend, fetch_log: FetchLog::new() }
    }

    /// A copy of the log as it stands. The log itself is left as it is.
    pub fn fetch_operations(&self) -> (copy: Vec<(String, ObjectId)>)
        ensures
            copy.deep_view() == self.log(),
    {
        self.fetch_log.operations()
    }
}

/// Copies of the log taken with no read in between are equal, entry for
/// entry: taking a copy changes nothing.
pub proof fn lemma_copies_agree<S: Storage>(
    storage: LoggingStorage<S>,
    first: Vec<(String, ObjectId)>,
    second: Vec<(String, ObjectId)>,
)
    requires
        first.deep_view() == storage.log(),
        second.deep_view() == storage.log(),
    ensures
        first.deep_view() == second.deep_view(),
{
}

/// The decorator is itself a storage. Each operation's contract has two
/// parts. The first says what the log holds afterwards. The second says that
/// the outcome, and the state the backend is left in, are those that the
/// backend's own operation produced when called once, on the backend as it
/// was and on the arguments as given: nothing is added, withheld or altered.
impl<S: Storage> Storage for LoggingStorage<S> {
    type Snapshot = S::Snapshot;

    type AttributesTable = S::AttributesTable;

    type Manifest = S::Manifest;

    type RefVersions = S::RefVersions;

    /// Logs the attempt, then hands the read to the backend. The entry is
    /// there whatever the backend answers.
    fn fetch_snapshot(&mut self, id: &ObjectId) -> (outcome: Result<Arc<S::Snapshot>, StorageError>)
        ensures
            final(self).log() == old(self).log().push(entry_of(FetchKind::Snapshot, id@)),
            exists|backend: &mut S|
                *backend == old(self).backend() && *final(backend) == final(self).backend()
                    && call_ensures(S::fetch_snapshot, (backend, id), outcome),
    {
        self.fetch_log.record(FetchKind::Snapshot, id);
        self.backend.fetch_snapshot(id)
    }

    /// Logs the attempt, then hands the read to the backend. The entry is
    /// there whatever the backend answers.
    fn fetch_attributes(
        &mut self,
        id: &ObjectId,
    ) -> (outcome: Result<Arc<S::AttributesTable>, StorageError>)
        ensures
            final(self).log() == old(self).log().push(entry_of(FetchKind::Attributes, id@)),
            exists|backend: &mut S|
                *backend == old(self).backend() && *final(backend) == final(self).backend()
                    && call_ensures(S::fetch_attributes, (backend, id), outcome),
    {
        self.fetch_log.record(FetchKind::Attributes, id);
        self.backend.fetch_attributes(id)
    }

    /// Logs the attempt, then hands the read to the backend. The entry is
    /// there whatever the backend answers.
    fn fetch_manifests(
        &mut self,
        id: &ObjectId,
    ) -> (outcome: Result<Arc<S::Manifest>, StorageError>)
        ensures
            final(self).log() == old(self).log().push(entry_of(FetchKind::Manifests, id@)),
            exists|backend: &mut S|
                *backend == old(self).backend() && *final(backend) == final(self).backend()
                    && call_ensures(S::fetch_manifests, (backend, id), outcome),
    {
        self.fetch_log.record(FetchKind::Manifests, id);
        self.backend.fetch_manifests(id)
    }

    /// Logs the attempt, then hands the read to the backend. The entry is
    /// there whatever the backend answers.
    fn fetch_chunk(
        &mut self,
        id: &ObjectId,
        range: &ByteRange,
    ) -> (outcome: Result<Bytes, StorageError>)
        ensures
            final(self).log() == old(self).log().push(entry_of(FetchKind::Chunk, id@)),
            exists|backend: &mut S|
                *backend == old(self).backend() && *final(backend) == final(self).backend()
                    && call_ensures(S::fetch_chunk, (backend, id, range), outcome),
    {
        self.fetch_log.record(FetchKind::Chunk, id);
        self.backend.fetch_chunk(id, range)
    }

    /// Hands the operation to the backend. Nothing is logged.
    fn write_snapshot(
        &mut self,
        id: ObjectId,
        table: Arc<S::Snapshot>,
    ) -> (outcome: Result<(), StorageError>)
        ensures
            final(self).log() == old(self).log(),
            exists|backend: &mut S|
                *backend == old(self).backend() && *final(backend) == final(self).backend()
                    && call_ensures(S::write_snapshot, (backend, id, table), outcome),
    {
        self.backend.write_snapshot(id, table)
    }

    /// Hands the operation to the backend. Nothing is logged.
    fn write_attributes(
        &mut self,
        id: ObjectId,
        table: Arc<S::AttributesTable>,
    ) -> (outcome: Result<(), StorageError>)
        ensures
            final(self).log() == old(self).log(),
            exists|backend: &mut S|
                *backend == old(self).backend() && *final(backend) == final(self).backend()
                    && call_ensures(S::write_attributes, (backend, id, table), outcome),
    {
        self.backend.write_attributes(id, table)
    }

    /// Hands the operation to the backend. Nothing is logged.
    fn write_manifests(
        &mut self,
        id: ObjectId,
        table: Arc<S::Manifest>,
    ) -> (outcome: Result<(), StorageError>)
        ensures
            final(self).log() == old(self).log(),
            exists|backend: &mut S|
                *backend == old(self).backend() && *final(backend) == final(self).backend()
                    && call_ensures(S::write_manifests, (backend, id, table), outcome),
    {
        self.backend.write_manifests(id, table)
    }

    /// Hands the operation to the backend. Nothing is logged.
    fn write_chunk(&mut self, id: ObjectId, bytes: Bytes) -> (outcome: Result<(), StorageError>)
        ensures
            final(self).log() == old(self).log(),
            exists|backend: &mut S|
                *backend == old(self).backend() && *final(backend) == final(self).backend()
                    && call_ensures(S::write_chunk, (backend, id, bytes), outcome),
    {
        self.backend.write_chunk(id, bytes)
    }

    /// Hands the operation to the backend. Nothing is logged.
    fn get_ref(&mut self, ref_key: &str) -> (outcome: StorageResult<Bytes>)
        ensures
            final(self).log() == old(self).log(),
            exists|backend: &mut S|
                *backend == old(self).backend() && *final(backend) == final(self).backend()
                    && call_ensures(S::get_ref, (backend, ref_key), outcome),
    {
        self.backend.get_ref(ref_key)
    }

    /// Hands the operation to the backend. Nothing is logged.
    fn ref_names(&mut self) -> (outcome: StorageResult<Vec<String>>)
        ensures
            final(self).log() == old(self).log(),
            exists|backend: &mut S|
                *backend == old(self).backend() && *final(backend) == final(self).backend()
                    && call_ensures(S::ref_names, (backend,), outcome),
    {
        self.backend.ref_names()
    }

    /// Hands the operation to the backend. Nothing is logged.
    fn write_ref(
        &mut self,
        ref_key: &str,
        overwrite_refs: bool,
        bytes: Bytes,
    ) -> (outcome: StorageResult<()>)
        ensures
            final(self).log() == old(self).log(),
            exists|backend: &mut S|
                *backend == old(self).backend() && *final(backend) == final(self).backend()
                    && call_ensures(S::write_ref, (backend, ref_key, overwrite_refs, bytes), outcome),
    {
        self.backend.write_ref(ref_key, overwrite_refs, bytes)
    }

    /// Hands the operation to the backend. Nothing is logged.
    fn ref_versions(&mut self, ref_name: &str) -> (outcome: S::RefVersions)
        ensures
            final(self).log() == old(self).log(),
            exists|backend: &mut S|
                *backend == old(self).backend() && *final(backend) == final(self).backend()
                    && call_ensures(S::ref_versions, (backend, ref_name), outcome),
    {
        self.backend.ref_versions(ref_name)
    }
}

} // verus!
