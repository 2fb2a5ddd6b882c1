//! The storage contract: what describes a stored object, how a backend
//! reports failure, and the six operations every backend declares.

use vstd::prelude::*;

pub mod deltashare;

verus! {

/// Describes one stored object. A backend builds a fresh value for each query.
#[derive(Debug)]
pub struct ObjectMeta {
    /// The object's path, relative to the backend's root.
    pub path: String,
    /// The object's size in bytes, where the backend knows it.
    pub size: Option<u64>,
    /// When the object was last modified, in seconds since the Unix epoch,
    /// where the backend knows it.
    pub modified: Option<i64>,
}

/// Why a backend operation failed. Callers branch on the variant; the text
/// inside is for diagnostics.
#[derive(Debug)]
pub enum StorageError {
    /// The backend deliberately does not perform this operation. The string
    /// explains which call was refused and why.
    UnsupportedOperation(String),
    /// The backend performs the operation, but no object is stored at the path.
    NotFound,
}

/// The six operations of the storage contract.
#[derive(Debug, Clone, Copy, PartialEq, Eq, Structural)]
pub enum Operation {
    /// Describe one object.
    Head,
    /// Read one object whole.
    Get,
    /// Enumerate the objects under a prefix.
    List,
    /// Write one object.
    Put,
    /// Move one object to another path.
    Rename,
    /// Remove one object.
    Delete,
}

/// A lazy sequence of listed objects. Each call hands out the next entry, and
/// `None` once the sequence is over. An entry may itself be an error; the
/// sequence goes on after it.
pub trait ObjectListing {
    fn next_entry(&mut self) -> Option<Result<ObjectMeta, StorageError>>;
}

/// Whether `result` is the refusal of a backend that does not perform the
/// operation: an `UnsupportedOperation` error, whatever its text.
pub open spec fn is_unsupported<T>(result: Result<T, StorageError>) -> bool {
    result matches Err(StorageError::UnsupportedOperation(_))
}

/// The contract between a table engine and a place where objects are stored.
///
/// Every backend declares all six operations. `supports` says which of them an
/// instance performs; a call of any other returns `UnsupportedOperation`, and a
/// call of one that is performed never does. Callers do not ask beforehand:
/// they call and read the error.
pub trait StorageBackend {
    /// The sequence that `list_objs` hands out.
    type Listing: ObjectListing;

    /// Whether this instance performs `op`.
    spec fn supports(&self, op: Operation) -> bool;

    /// Describes the object stored at `path`.
    fn head_obj(&self, path: &str) -> (result: Result<ObjectMeta, StorageError>)
        ensures
            is_unsupported(result) <==> !self.supports(Operation::Head),
    ;

    /// Reads the whole object stored at `path`.
    fn get_obj(&self, path: &str) -> (result: Result<Vec<u8>, StorageError>)
        ensures
            is_unsupported(result) <==> !self.supports(Operation::Get),
    ;

    /// Starts a listing of the objects whose path begins with `path`.
    fn list_objs(&self, path: &str) -> (result: Result<Self::Listing, StorageError>)
        ensures
            is_unsupported(result) <==> !self.supports(Operation::List),
    ;

    /// Stores `obj_bytes` at `path`.
    fn put_obj(&self, path: &str, obj_bytes: &[u8]) -> (result: Result<(), StorageError>)
        ensures
            is_unsupported(result) <==> !self.supports(Operation::Put),
    ;

    /// Moves the object stored at `src` to `dst`.
    fn rename_obj(&self, src: &str, dst: &str) -> (result: Result<(), StorageError>)
        ensures
            is_unsupported(result) <==> !self.supports(Operation::Rename),
    ;

    /// Removes the object stored at `path`.
    fn delete_obj(&self, path: &str) -> (result: Result<(), StorageError>)
        ensures
            is_unsupported(result) <==> !self.supports(Operation::Delete),
    ;
}

} // verus!
