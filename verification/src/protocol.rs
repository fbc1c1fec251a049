//! What the library and the backends say to each other: requests, replies
//! and the steps of an operation.
use vstd::prelude::*;
use crate::types::StorageLocation;

verus! {

/// What a backend can be asked to do.
#[derive(Clone, Copy, Debug, PartialEq, Eq, Structural)]
pub enum Operation {
    /// Lay out a fresh filesystem on the medium, destroying what it held.
    Format,
    /// Bind the filesystem on the medium.
    Mount,
    /// Create the directory at the path; its parent must exist.
    CreateDir,
    /// Replace the file at the path by the contents.
    Write,
    /// Return what the file at the path holds.
    Read,
    /// Remove the entry at the path.
    Remove,
}

/// One operation for one backend.
#[derive(Clone, Debug, PartialEq, Eq)]
pub struct Request {
    /// The backend that is to perform the operation, and no other.
    pub location: StorageLocation,
    pub operation: Operation,
    /// The path that the operation is about; empty for `Format` and `Mount`.
    pub path: Vec<u8>,
    /// What to write; empty for every operation but `Write`.
    pub contents: Vec<u8>,
    /// The largest number of bytes that a `Read` is to return; 0 for every
    /// other operation.
    pub limit: usize,
}

/// A request with its byte strings as sequences.
pub struct RequestView {
    pub location: StorageLocation,
    pub operation: Operation,
    pub path: Seq<u8>,
    pub contents: Seq<u8>,
    pub limit: usize,
}

impl View for Request {
    type V = RequestView;

    open spec fn view(&self) -> RequestView {
        RequestView {
            location: self.location,
            operation: self.operation,
            path: self.path@,
            contents: self.contents@,
            limit: self.limit,
        }
    }
}

/// What a backend answered to one request.
#[derive(Clone, Debug, PartialEq, Eq)]
pub enum Reply {
    /// The operation succeeded. Holds what a read returned, and nothing for
    /// any other operation.
    Done(Vec<u8>),
    /// The operation failed because the entry that it was to create existed.
    EntryAlreadyExisted,
    /// The operation failed for any other reason.
    Failed,
}

/// What comes next in an operation.
#[derive(Debug)]
pub enum Step<T> {
    /// The backend named in the request is to perform it.
    Perform(Request),
    /// The operation is over, with this result.
    Finished(T),
    /// The storage failed beyond repair: the device cannot go on.
    Fatal,
}

/// A step with its request as a [`RequestView`].
pub enum StepView<T> {
    Perform(RequestView),
    Finished(T),
    Fatal,
}

impl<T> View for Step<T> {
    type V = StepView<T>;

    open spec fn view(&self) -> StepView<T> {
        match *self {
            Step::Perform(request) => StepView::Perform(request@),
            Step::Finished(result) => StepView::Finished(result),
            Step::Fatal => StepView::Fatal,
        }
    }
}

/// The request for `operation` on `path` at `location`, where the
/// operation is no read.
pub open spec fn request(
    location: StorageLocation,
    operation: Operation,
    path: Seq<u8>,
    contents: Seq<u8>,
) -> RequestView {
    RequestView { location, operation, path, contents, limit: 0 }
}

/// The request to read at most `limit` bytes of the file `path` at
/// `location`.
pub open spec fn read_request(location: StorageLocation, path: Seq<u8>, limit: usize) -> RequestView {
    RequestView { location, operation: Operation::Read, path, contents: Seq::empty(), limit }
}

} // verus!
