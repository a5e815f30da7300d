//! The file cache: file identity to the file's bytes, each file added once.

use std::collections::HashMap;
use vstd::prelude::*;
use crate::ids::FileId;

verus! {

broadcast use vstd::std_specs::hash::group_hash_axioms;

#[derive(Debug, Copy, Clone, PartialEq, Eq, Structural)]
pub enum FileError {
    FileAlreadyAdded,
    FileNotFound,
}

/// Bytes of files by identity. Reading the files and resolving paths to
/// identities is left to the caller.
#[derive(Debug)]
pub struct FileCache {
    files: HashMap<u64, Vec<u8>>,
}

impl FileCache {
    /// The cached files, by the value of their identity.
    pub closed spec fn entries(&self) -> Map<u64, Vec<u8>> {
        self.files@
    }

    /// What `add_file(id, bytes)` does: a new identity is stored with its bytes,
    /// a known one is refused and nothing changes.
    pub open spec fn add_file_effect(
        before: FileCache,
        after: FileCache,
        id: FileId,
        bytes: Vec<u8>,
        r: Result<(), FileError>,
    ) -> bool {
        if before.entries().contains_key(id.0) {
            r == Err::<(), FileError>(FileError::FileAlreadyAdded) && after.entries() == before.entries()
        } else {
            r is Ok && after.entries() == before.entries().insert(id.0, bytes)
        }
    }

    pub fn new() -> (r: Result<FileCache, FileError>)
        ensures
            r is Ok,
            r->Ok_0.entries() == Map::<u64, Vec<u8>>::empty(),
    {
        Ok(FileCache { files: HashMap::new() })
    }

    pub fn has_file(&self, id: FileId) -> (r: bool)
        ensures
            r == self.entries().contains_key(id.0),
    {
        self.files.contains_key(&id.0)
    }

    pub fn add_file(&mut self, id: FileId, bytes: Vec<u8>) -> (r: Result<(), FileError>)
        ensures
            Self::add_file_effect(*old(self), *final(self), id, bytes, r),
    {
        if self.files.contains_key(&id.0) {
            return Err(FileError::FileAlreadyAdded);
        }
        self.files.insert(id.0, bytes);
        Ok(())
    }

    pub fn get_file(&self, id: FileId) -> (r: Result<&Vec<u8>, FileError>)
        ensures
            self.entries().contains_key(id.0) ==> r == Ok::<&Vec<u8>, FileError>(&self.entries()[id.0]),
            !self.entries().contains_key(id.0) ==> r == Err::<&Vec<u8>, FileError>(FileError::FileNotFound),
    {
        match self.files.get(&id.0) {
            Some(bytes) => Ok(bytes),
            None => Err(FileError::FileNotFound),
        }
    }
}

/// Adding a file twice: the first add succeeds, the second is refused, and the
/// file keeps the bytes of the first.
pub proof fn lemma_file_add_once(
    c0: FileCache,
    c1: FileCache,
    c2: FileCache,
    id: FileId,
    bytes: Vec<u8>,
    again: Vec<u8>,
    r1: Result<(), FileError>,
    r2: Result<(), FileError>,
)
    requires
        !c0.entries().contains_key(id.0),
        FileCache::add_file_effect(c0, c1, id, bytes, r1),
        FileCache::add_file_effect(c1, c2, id, again, r2),
    ensures
        r1 is Ok,
        r2 == Err::<(), FileError>(FileError::FileAlreadyAdded),
        c2.entries()[id.0] == bytes,
{
}

} // verus!
