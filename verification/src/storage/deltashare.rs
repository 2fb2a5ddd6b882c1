//! A backend for a Delta Sharing server. The share is read-only and its data is
//! reached through the sharing protocol, so this backend refuses every
//! operation of the storage contract.

use crate::storage::{
    is_unsupported, ObjectListing, ObjectMeta, Operation, StorageBackend, StorageError,
};
use std::convert::Infallible;
use vstd::prelude::*;

verus! {

/// The name under which a refusal mentions `op`.
pub open spec fn operation_label(op: Operation) -> Seq<char> {
    match op {
        Operation::Head => "head_obj"@,
        Operation::Get => "get_obj"@,
        Operation::List => "list_obj"@,
        Operation::Put => "put_obj"@,
        Operation::Rename => "rename_obj"@,
        Operation::Delete => "delete_obj"@,
    }
}

/// What every refusal says after the operation's label.
pub open spec fn refusal_reason() -> Seq<char> {
    " will not work against a read-only Delta Share"@
}

/// The text with which a Delta Share backend refuses `op`: the operation's
/// label, then the reason.
pub open spec fn refusal_text(op: Operation) -> Seq<char> {
    operation_label(op) + refusal_reason()
}

/// Names a Delta Share by its URL. The URL is taken as it is: nothing parses
/// or validates it.
#[derive(Debug, PartialEq)]
pub struct DeltaShareObject<'a> {
    /// Where the sharing server offers the share.
    pub url: &'a str,
}

impl<'a> DeltaShareObject<'a> {
    /// The URL as an owned string, character for character.
    pub fn to_string(&self) -> (text: String)
        ensures
            text@ == self.url@,
    {
        self.url.to_owned()
    }
}

/// The listing of a backend that cannot enumerate. It has no values: such a
/// backend fails before any listing exists.
#[derive(Debug)]
pub struct NoListing {
    never: Infallible,
}

impl ObjectListing for NoListing {
    /// There is never an entry to hand out.
    fn next_entry(&mut self) -> (entry: Option<Result<ObjectMeta, StorageError>>)
        ensures
            entry is None,
    {
        None
    }
}

/// A storage backend for one Delta Share. It keeps the share's URL and answers
/// every operation of the storage contract with a refusal.
#[derive(Debug)]
pub struct DeltaShareBackend {
    url: String,
}

impl View for DeltaShareBackend {
    type V = Seq<char>;

    /// The URL that the backend was made with.
    closed spec fn view(&self) -> Seq<char> {
        self.url@
    }
}

impl DeltaShareBackend {
    /// Whether `result` is this backend's answer to `op`: an
    /// `UnsupportedOperation` error whose text is `refusal_text(op)`.
    pub open spec fn refuses<T>(&self, op: Operation, result: Result<T, StorageError>) -> bool {
        result matches Err(StorageError::UnsupportedOperation(text)) && text@ == refusal_text(op)
    }

    /// Makes the backend for the share that `obj` names. The URL is kept as
    /// given; no server is contacted.
    pub fn new(obj: DeltaShareObject<'_>) -> (backend: Self)
        ensures
            backend@ == obj.url@,
    {
        Self { url: obj.url.to_owned() }
    }
}

/// The six refusals, written out: each is the operation's label followed by
/// the reason.
pub proof fn refusal_texts_in_full()
    ensures
        refusal_text(Operation::Head) == "head_obj will not work against a read-only Delta Share"@,
        refusal_text(Operation::Get) == "get_obj will not work against a read-only Delta Share"@,
        refusal_text(Operation::List) == "list_obj will not work against a read-only Delta Share"@,
        refusal_text(Operation::Put) == "put_obj will not work against a read-only Delta Share"@,
        refusal_text(Operation::Rename) == "rename_obj will not work against a read-only Delta Share"@,
        refusal_text(Operation::Delete) == "delete_obj will not work against a read-only Delta Share"@,
{
    reveal_strlit(" will not work against a read-only Delta Share");
    reveal_strlit("head_obj");
    reveal_strlit("head_obj will not work against a read-only Delta Share");
    assert(refusal_text(Operation::Head) =~= "head_obj will not work against a read-only Delta Share"@);
    reveal_strlit("get_obj");
    reveal_strlit("get_obj will not work against a read-only Delta Share");
    assert(refusal_text(Operation::Get) =~= "get_obj will not work against a read-only Delta Share"@);
    reveal_strlit("list_obj");
    reveal_strlit("list_obj will not work against a read-only Delta Share");
    assert(refusal_text(Operation::List) =~= "list_obj will not work against a read-only Delta Share"@);
    reveal_strlit("put_obj");
    reveal_strlit("put_obj will not work against a read-only Delta Share");
    assert(refusal_text(Operation::Put) =~= "put_obj will not work against a read-only Delta Share"@);
    reveal_strlit("rename_obj");
    reveal_strlit("rename_obj will not work against a read-only Delta Share");
    assert(refusal_text(Operation::Rename) =~= "rename_obj will not work against a read-only Delta Share"@);
    reveal_strlit("delete_obj");
    reveal_strlit("delete_obj will not work against a read-only Delta Share");
    assert(refusal_text(Operation::Delete) =~= "delete_obj will not work against a read-only Delta Share"@);
}

/// A refusal names its operation: the text begins with that operation's label
/// and with the label of no other.
pub proof fn refusal_text_names_operation(op: Operation, other: Operation)
    ensures
        operation_label(op).is_prefix_of(refusal_text(op)),
        other != op ==> !operation_label(other).is_prefix_of(refusal_text(op)),
{
    reveal_strlit("head_obj");
    reveal_strlit("get_obj");
    reveal_strlit("list_obj");
    reveal_strlit("put_obj");
    reveal_strlit("rename_obj");
    reveal_strlit("delete_obj");
    let label = operation_label(op);
    let text = refusal_text(op);
    assert(text.subrange(0, label.len() as int) =~= label);
    if other != op && operation_label(other).is_prefix_of(text) {
        assert(operation_label(other)[0] == text[0]);
        assert(text[0] == label[0]);
    }
}

/// No two operations are refused with the same text.
pub proof fn refusal_texts_distinct(a: Operation, b: Operation)
    requires
        a != b,
    ensures
        refusal_text(a) != refusal_text(b),
{
    refusal_text_names_operation(a, b);
    refusal_text_names_operation(b, b);
}

/// Whatever the operation, the answer of a Delta Share backend is an
/// `UnsupportedOperation` error, which is what the storage contract asks of an
/// operation that a backend does not perform.
pub proof fn every_answer_is_unsupported<T>(
    backend: DeltaShareBackend,
    op: Operation,
    result: Result<T, StorageError>,
)
    requires
        backend.refuses(op, result),
    ensures
        is_unsupported(result),
        !backend.supports(op),
{
}

/// Backends made with the same URL behave alike: what one of them answers to
/// an operation is an answer of the other too, and the answer to an operation
/// is always the same error with the same text.
pub proof fn same_url_same_answers<T>(
    a: DeltaShareBackend,
    b: DeltaShareBackend,
    op: Operation,
    first: Result<T, StorageError>,
    second: Result<T, StorageError>,
)
    requires
        a@ == b@,
    ensures
        a.supports(op) == b.supports(op),
        a.refuses(op, first) == b.refuses(op, first),
        a.refuses(op, first) && b.refuses(op, second) ==> first->Err_0->UnsupportedOperation_0@
            == second->Err_0->UnsupportedOperation_0@,
{
}

impl StorageBackend for DeltaShareBackend {
    type Listing = NoListing;

    /// A Delta Share backend performs none of the operations.
    open spec fn supports(&self, op: Operation) -> bool {
        false
    }

    /// Refuses to describe an object: a share is not reached by path.
    fn head_obj(&self, _path: &str) -> (result: Result<ObjectMeta, StorageError>)
        ensures
            self.refuses(Operation::Head, result),
    {
        proof {
            refusal_texts_in_full();
        }
        Err(
            StorageError::UnsupportedOperation(
                "head_obj will not work against a read-only Delta Share".to_string(),
            ),
        )
    }

    /// Refuses to read an object: a share is not reached by path.
    fn get_obj(&self, _path: &str) -> (result: Result<Vec<u8>, StorageError>)
        ensures
            self.refuses(Operation::Get, result),
    {
        proof {
            refusal_texts_in_full();
        }
        Err(
            StorageError::UnsupportedOperation(
                "get_obj will not work against a read-only Delta Share".to_string(),
            ),
        )
    }

    /// Refuses to list objects. No listing is made: the refusal is the whole
    /// result.
    fn list_objs(&self, _path: &str) -> (result: Result<NoListing, StorageError>)
        ensures
            self.refuses(Operation::List, result),
    {
        proof {
            refusal_texts_in_full();
        }
        Err(
            StorageError::UnsupportedOperation(
                "list_obj will not work against a read-only Delta Share".to_string(),
            ),
        )
    }

    /// Refuses to store an object: a share is read-only.
    fn put_obj(&self, _path: &str, _obj_bytes: &[u8]) -> (result: Result<(), StorageError>)
        ensures
            self.refuses(Operation::Put, result),
    {
        proof {
            refusal_texts_in_full();
        }
        Err(
            StorageError::UnsupportedOperation(
                "put_obj will not work against a read-only Delta Share".to_string(),
            ),
        )
    }

    /// Refuses to move an object: a share is read-only.
    fn rename_obj(&self, _src: &str, _dst: &str) -> (result: Result<(), StorageError>)
        ensures
            self.refuses(Operation::Rename, result),
    {
        proof {
            refusal_texts_in_full();
        }
        Err(
            StorageError::UnsupportedOperation(
                "rename_obj will not work against a read-only Delta Share".to_string(),
            ),
        )
    }

    /// Refuses to remove an object: a share is read-only.
    fn delete_obj(&self, _path: &str) -> (result: Result<(), StorageError>)
        ensures
            self.refuses(Operation::Delete, result),
    {
        proof {
            refusal_texts_in_full();
        }
        Err(
            StorageError::UnsupportedOperation(
                "delete_obj will not work against a read-only Delta Share".to_string(),
            ),
        )
    }
}

} // verus!
