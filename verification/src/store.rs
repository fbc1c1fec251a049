//! The operations on the combined store: read, write, store and delete at a
//! location, and the creation of the directories that a file needs.
//!
//! An operation takes its arguments and the replies that the backends have
//! given to its requests so far, oldest first, and returns the next
//! [`Step`]. The caller performs a request on the backend that it names,
//! appends the reply and asks again, until the step is no request.
use vstd::prelude::*;
use vstd::slice::slice_subrange;
use crate::config::PATH_SEPARATOR;
use crate::error::Error;
use crate::path::{
    ancestors, depth, is_path, lemma_ancestor_ends_at_separator, lemma_ancestors_are_paths,
    lemma_ancestors_of_prefix, lemma_ancestors_parents_first, lemma_ancestors_step, prefix,
};
use crate::protocol::{read_request, request, Operation, Reply, Request, Step, StepView};
use crate::types::StorageLocation;

verus! {

/// The handle of one backend: a mounted filesystem of type `S`, which stays
/// mounted for as long as the device runs.
pub struct Fs<S: 'static> {
    fs: &'static S,
}

impl<S: 'static> Fs<S> {
    /// The mounted filesystem that the handle stands for.
    pub closed spec fn filesystem(&self) -> S {
        *self.fs
    }

    /// The handle of the mounted filesystem `fs`.
    pub fn new(fs: &'static S) -> (handle: Self)
        ensures
            handle.filesystem() == *fs,
    {
        Fs { fs }
    }
}

impl<S: 'static> core::ops::Deref for Fs<S> {
    type Target = S;

    /// The mounted filesystem itself, for its own operations.
    fn deref(&self) -> (fs: &S)
        ensures
            *fs == self.filesystem(),
    {
        self.fs
    }
}

/// The combined store: whoever holds a value of a type with this trait has
/// claimed the store and reaches the three backends through it.
///
/// The handles are there once the filesystems are mounted, and not before.
pub trait Store: Copy {
    /// The filesystem on the internal medium.
    type I: 'static;

    /// The filesystem on the external medium.
    type E: 'static;

    /// The filesystem on the volatile medium.
    type V: 'static;

    /// The backend at `StorageLocation::Internal`.
    fn ifs(self) -> &'static Fs<Self::I>;

    /// The backend at `StorageLocation::External`.
    fn efs(self) -> &'static Fs<Self::E>;

    /// The backend at `StorageLocation::Volatile`.
    fn vfs(self) -> &'static Fs<Self::V>;
}

/// The handle of the backend at one location.
pub enum Handle<I: 'static, E: 'static, V: 'static> {
    Internal(&'static Fs<I>),
    External(&'static Fs<E>),
    Volatile(&'static Fs<V>),
}

impl<I: 'static, E: 'static, V: 'static> Handle<I, E, V> {
    /// The location of the backend that the handle is of.
    pub open spec fn location(self) -> StorageLocation {
        match self {
            Handle::Internal(_) => StorageLocation::Internal,
            Handle::External(_) => StorageLocation::External,
            Handle::Volatile(_) => StorageLocation::Volatile,
        }
    }
}

/// The handle of the backend of `store` at `location`: the one that
/// performs the requests that name the location.
pub fn backend<S: Store>(store: S, location: StorageLocation) -> (handle: Handle<S::I, S::E, S::V>)
    ensures
        handle.location() == location,
{
    match location {
        StorageLocation::Internal => Handle::Internal(store.ifs()),
        StorageLocation::External => Handle::External(store.efs()),
        StorageLocation::Volatile => Handle::Volatile(store.vfs()),
    }
}

/// The first `limit` bytes of `contents`, or all of them where they are
/// fewer.
pub open spec fn cut(contents: Seq<u8>, limit: usize) -> Seq<u8> {
    if contents.len() <= limit {
        contents
    } else {
        contents.take(limit as int)
    }
}

/// One of the first `limit` replies is a failure other than "entry already
/// existed".
pub open spec fn failed_before(replies: Seq<Reply>, limit: int) -> bool {
    exists|i: int| 0 <= i < replies.len() && i < limit && replies[i] is Failed
}

/// The next step of creating the ancestor directories of `path`.
///
/// The directories are created one by one, parents first. A directory is
/// there when the backend created it or said that it existed; any other
/// failure is fatal.
pub open spec fn directories_step(
    location: StorageLocation,
    path: Seq<u8>,
    replies: Seq<Reply>,
) -> StepView<Result<(), Error>> {
    let directories = ancestors(path);
    if failed_before(replies, directories.len() as int) {
        StepView::Fatal
    } else if replies.len() < directories.len() {
        StepView::Perform(
            request(
                location,
                Operation::CreateDir,
                directories[replies.len() as int],
                Seq::empty(),
            ),
        )
    } else {
        StepView::Finished(Ok(()))
    }
}

/// The next step of a write: one request, whose failure is a
/// `FilesystemWriteFailure`, whatever its cause.
pub open spec fn write_step(
    location: StorageLocation,
    path: Seq<u8>,
    contents: Seq<u8>,
    replies: Seq<Reply>,
) -> StepView<Result<(), Error>> {
    if replies.len() == 0 {
        StepView::Perform(request(location, Operation::Write, path, contents))
    } else if replies[0] is Done {
        StepView::Finished(Ok(()))
    } else {
        StepView::Finished(Err(Error::FilesystemWriteFailure))
    }
}

/// The next step of a store: the steps that create the ancestor directories
/// of `path`, then those of the write.
pub open spec fn store_step(
    location: StorageLocation,
    path: Seq<u8>,
    contents: Seq<u8>,
    replies: Seq<Reply>,
) -> StepView<Result<(), Error>> {
    let step = directories_step(location, path, replies);
    if step is Finished {
        write_step(location, path, contents, replies.skip(ancestors(path).len() as int))
    } else {
        step
    }
}

/// The next step of a read of at most `limit` bytes: one request, whose
/// failure is a `FilesystemReadFailure`, whatever its cause. What the
/// backend returned beyond the limit is dropped.
pub open spec fn read_step(
    location: StorageLocation,
    path: Seq<u8>,
    limit: usize,
    replies: Seq<Reply>,
) -> StepView<Result<Seq<u8>, Error>> {
    if replies.len() == 0 {
        StepView::Perform(read_request(location, path, limit))
    } else {
        match replies[0] {
            Reply::Done(contents) => StepView::Finished(Ok(cut(contents@, limit))),
            _ => StepView::Finished(Err(Error::FilesystemReadFailure)),
        }
    }
}

/// The next step of a delete: one request; the result says whether it
/// succeeded, and no more.
pub open spec fn delete_step(
    location: StorageLocation,
    path: Seq<u8>,
    replies: Seq<Reply>,
) -> StepView<bool> {
    if replies.len() == 0 {
        StepView::Perform(request(location, Operation::Remove, path, Seq::empty()))
    } else {
        StepView::Finished(replies[0] is Done)
    }
}

/// A read's step with the bytes read as a sequence.
pub open spec fn read_view(step: Step<Result<Vec<u8>, Error>>) -> StepView<Result<Seq<u8>, Error>> {
    match step {
        Step::Perform(request) => StepView::Perform(request@),
        Step::Finished(Ok(contents)) => StepView::Finished(Ok(contents@)),
        Step::Finished(Err(error)) => StepView::Finished(Err(error)),
        Step::Fatal => StepView::Fatal,
    }
}

/// Creates the ancestor directories of `path` at `location`, since a backend
/// creates no directory whose parent is missing.
///
/// Scans `path` from left to right; everything before a separator is a
/// directory to create. `replies` holds the answers to the requests made so
/// far.
pub fn create_directories(location: StorageLocation, path: &[u8], replies: &[Reply]) -> (step: Step<
    Result<(), Error>,
>)
    ensures
        step@ == directories_step(location, path@, replies@),
{
    let mut answered: usize = 0;
    let mut i: usize = 0;
    while i < path.len()
        invariant
            i <= path@.len(),
            answered <= i,
            answered <= replies@.len(),
            answered == ancestors(path@.take(i as int)).len(),
            !failed_before(replies@, answered as int),
        decreases path@.len() - i,
    {
        proof {
            lemma_ancestors_step(path@, i as int);
            lemma_ancestors_of_prefix(path@, i + 1);
        }
        if path[i] == PATH_SEPARATOR {
            proof {
                let found = ancestors(path@.take(i + 1));
                assert(found[answered as int] == path@.take(i as int));
                assert(ancestors(path@)[answered as int] == found[answered as int]);
            }
            if answered == replies.len() {
                assert(!failed_before(replies@, ancestors(path@).len() as int));
                return Step::Perform(
                    Request {
                        location,
                        operation: Operation::CreateDir,
                        path: prefix(path, i),
                        contents: Vec::new(),
                        limit: 0,
                    },
                );
            }
            match replies[answered] {
                Reply::Failed => {
                    assert(failed_before(replies@, ancestors(path@).len() as int));
                    return Step::Fatal;
                },
                _ => {},
            }
            answered += 1;
        }
        i += 1;
    }
    assert(path@.take(i as int) =~= path@);
    Step::Finished(Ok(()))
}

/// Writes `contents` to `path` at `location`.
pub fn write(location: StorageLocation, path: &[u8], contents: &[u8], replies: &[Reply]) -> (step:
    Step<Result<(), Error>>)
    ensures
        step@ == write_step(location, path@, contents@, replies@),
{
    if replies.len() == 0 {
        let path_len = path.len();
        let contents_len = contents.len();
        assert(path@.take(path_len as int) =~= path@);
        assert(contents@.take(contents_len as int) =~= contents@);
        Step::Perform(
            Request {
                location,
                operation: Operation::Write,
                path: prefix(path, path_len),
                contents: prefix(contents, contents_len),
                limit: 0,
            },
        )
    } else {
        match replies[0] {
            Reply::Done(_) => Step::Finished(Ok(())),
            _ => Step::Finished(Err(Error::FilesystemWriteFailure)),
        }
    }
}

/// Creates the parent directories of `path` at `location` where they are
/// missing, then writes `contents` to `path`.
pub fn store(location: StorageLocation, path: &[u8], contents: &[u8], replies: &[Reply]) -> (step:
    Step<Result<(), Error>>)
    ensures
        step@ == store_step(location, path@, contents@, replies@),
{
    match create_directories(location, path, replies) {
        Step::Finished(_) => {
            let created = depth(path);
            write(location, path, contents, slice_subrange(replies, created, replies.len()))
        },
        step => step,
    }
}

/// Reads what the file at `path` at `location` holds, up to `limit` bytes.
pub fn read(location: StorageLocation, path: &[u8], limit: usize, replies: &[Reply]) -> (step: Step<
    Result<Vec<u8>, Error>,
>)
    ensures
        read_view(step) == read_step(location, path@, limit, replies@),
{
    if replies.len() == 0 {
        let path_len = path.len();
        assert(path@.take(path_len as int) =~= path@);
        Step::Perform(
            Request {
                location,
                operation: Operation::Read,
                path: prefix(path, path_len),
                contents: Vec::new(),
                limit,
            },
        )
    } else {
        match &replies[0] {
            Reply::Done(contents) => {
                let len = if contents.len() <= limit {
                    contents.len()
                } else {
                    limit
                };
                assert(contents@.take(len as int) =~= cut(contents@, limit));
                Step::Finished(Ok(prefix(contents.as_slice(), len)))
            },
            _ => Step::Finished(Err(Error::FilesystemReadFailure)),
        }
    }
}

/// Removes the entry at `path` at `location`, and says whether that
/// succeeded.
pub fn delete(location: StorageLocation, path: &[u8], replies: &[Reply]) -> (step: Step<bool>)
    ensures
        step@ == delete_step(location, path@, replies@),
{
    if replies.len() == 0 {
        let path_len = path.len();
        assert(path@.take(path_len as int) =~= path@);
        Step::Perform(
            Request {
                location,
                operation: Operation::Remove,
                path: prefix(path, path_len),
                contents: Vec::new(),
                limit: 0,
            },
        )
    } else {
        match replies[0] {
            Reply::Done(_) => Step::Finished(true),
            _ => Step::Finished(false),
        }
    }
}

/// `shorter` is the beginning of `longer`, and not all of it.
pub open spec fn is_proper_prefix(shorter: Seq<u8>, longer: Seq<u8>) -> bool {
    shorter.len() < longer.len() && shorter == longer.take(shorter.len() as int)
}

/// An operation at a location asks that backend for everything and the
/// other two for nothing: each of its requests names the location.
pub proof fn law_requests_name_the_location(
    location: StorageLocation,
    path: Seq<u8>,
    contents: Seq<u8>,
    limit: usize,
    replies: Seq<Reply>,
)
    ensures
        directories_step(location, path, replies) is Perform ==> directories_step(
            location,
            path,
            replies,
        )->Perform_0.location == location,
        write_step(location, path, contents, replies) is Perform ==> write_step(
            location,
            path,
            contents,
            replies,
        )->Perform_0.location == location,
        store_step(location, path, contents, replies) is Perform ==> store_step(
            location,
            path,
            contents,
            replies,
        )->Perform_0.location == location,
        read_step(location, path, limit, replies) is Perform ==> read_step(
            location,
            path,
            limit,
            replies,
        )->Perform_0.location == location,
        delete_step(location, path, replies) is Perform ==> delete_step(
            location,
            path,
            replies,
        )->Perform_0.location == location,
{
}

/// An operation on a path that the backends take asks them about such paths
/// only: about the path itself, or about one of its ancestors.
pub proof fn law_requests_carry_paths(
    location: StorageLocation,
    path: Seq<u8>,
    contents: Seq<u8>,
    limit: usize,
    replies: Seq<Reply>,
    longest: nat,
)
    requires
        is_path(path, longest),
    ensures
        directories_step(location, path, replies) is Perform ==> is_path(
            directories_step(location, path, replies)->Perform_0.path,
            longest,
        ),
        write_step(location, path, contents, replies) is Perform ==> write_step(
            location,
            path,
            contents,
            replies,
        )->Perform_0.path == path,
        store_step(location, path, contents, replies) is Perform ==> is_path(
            store_step(location, path, contents, replies)->Perform_0.path,
            longest,
        ),
        read_step(location, path, limit, replies) is Perform ==> read_step(
            location,
            path,
            limit,
            replies,
        )->Perform_0.path == path,
        delete_step(location, path, replies) is Perform ==> delete_step(
            location,
            path,
            replies,
        )->Perform_0.path == path,
{
    if directories_step(location, path, replies) is Perform {
        lemma_ancestors_are_paths(path, longest, replies.len() as int);
    }
}

/// Directories that are there already are no error: when no creation fails
/// for another reason than "entry already existed", the directories are
/// done after one request for each ancestor, and a store whose write then
/// succeeds has succeeded. So a store can be repeated.
pub proof fn law_existing_directories_are_no_error(
    location: StorageLocation,
    path: Seq<u8>,
    contents: Seq<u8>,
    replies: Seq<Reply>,
)
    requires
        replies.len() == ancestors(path).len() + 1,
        forall|i: int| 0 <= i < ancestors(path).len() ==> !(replies[i] is Failed),
        replies.last() is Done,
    ensures
        directories_step(location, path, replies.drop_last()) == StepView::<
            Result<(), Error>,
        >::Finished(Ok(())),
        store_step(location, path, contents, replies) == StepView::<Result<(), Error>>::Finished(
            Ok(()),
        ),
{
    let created = ancestors(path).len() as int;
    assert(replies.skip(created)[0] == replies.last());
}

/// What is asked next depends on how many requests were answered, and not
/// on what the answers held, as long as none was a failure: a directory
/// that the backend created and one that it found are the same to a store.
pub proof fn law_requests_follow_the_path(
    location: StorageLocation,
    path: Seq<u8>,
    contents: Seq<u8>,
    first: Seq<Reply>,
    second: Seq<Reply>,
)
    requires
        first.len() == second.len(),
        first.len() <= ancestors(path).len(),
        forall|i: int| 0 <= i < first.len() ==> !(first[i] is Failed) && !(second[i] is Failed),
    ensures
        store_step(location, path, contents, first) is Perform,
        store_step(location, path, contents, first) == store_step(
            location,
            path,
            contents,
            second,
        ),
{
    let created = ancestors(path).len() as int;
    if first.len() == created {
        assert(first.skip(created).len() == 0);
        assert(second.skip(created).len() == 0);
    }
}

/// Parents come before children, and the file comes last. When a store
/// asks for something, every request before it was the creation of one
/// ancestor of the path, shallowest first, and none of them failed. The
/// request itself creates the next ancestor, of which every directory
/// created before is a proper prefix; or, when all ancestors are there, it
/// writes the file.
pub proof fn law_parents_come_first(
    location: StorageLocation,
    path: Seq<u8>,
    contents: Seq<u8>,
    replies: Seq<Reply>,
)
    requires
        store_step(location, path, contents, replies) is Perform,
    ensures
        replies.len() <= ancestors(path).len(),
        forall|j: int|
            0 <= j < replies.len() ==> !(replies[j] is Failed) && #[trigger] store_step(
                location,
                path,
                contents,
                replies.take(j),
            ) == StepView::<Result<(), Error>>::Perform(
                request(location, Operation::CreateDir, ancestors(path)[j], Seq::empty()),
            ),
        replies.len() < ancestors(path).len() ==> store_step(location, path, contents, replies)
            == StepView::<Result<(), Error>>::Perform(
            request(
                location,
                Operation::CreateDir,
                ancestors(path)[replies.len() as int],
                Seq::empty(),
            ),
        ),
        replies.len() == ancestors(path).len() ==> store_step(location, path, contents, replies)
            == StepView::<Result<(), Error>>::Perform(
            request(location, Operation::Write, path, contents),
        ),
        forall|j: int, k: int|
            0 <= j < k < ancestors(path).len() ==> is_proper_prefix(
                #[trigger] ancestors(path)[j],
                #[trigger] ancestors(path)[k],
            ),
        forall|j: int|
            0 <= j < ancestors(path).len() ==> is_proper_prefix(
                #[trigger] ancestors(path)[j],
                path,
            ),
{
    let created = ancestors(path).len() as int;
    if replies.len() > created {
        assert(replies.skip(created).len() > 0);
    }
    assert forall|j: int| 0 <= j < replies.len() implies !(replies[j] is Failed)
        && #[trigger] store_step(location, path, contents, replies.take(j)) == StepView::<
        Result<(), Error>,
    >::Perform(request(location, Operation::CreateDir, ancestors(path)[j], Seq::empty())) by {
        let earlier = replies.take(j);
        if failed_before(earlier, created) {
            let i = choose|i: int| 0 <= i < earlier.len() && i < created && earlier[i] is Failed;
            assert(replies[i] is Failed);
        }
    }
    assert forall|j: int, k: int| 0 <= j < k < ancestors(path).len() implies is_proper_prefix(
        #[trigger] ancestors(path)[j],
        #[trigger] ancestors(path)[k],
    ) by {
        lemma_ancestors_parents_first(path, j, k);
    }
    assert forall|j: int| 0 <= j < ancestors(path).len() implies is_proper_prefix(
        #[trigger] ancestors(path)[j],
        path,
    ) by {
        lemma_ancestor_ends_at_separator(path, j);
    }
}

/// The library's share of a round trip. A write hands the backend the
/// contents, the path and the location as they were given, and a read asks
/// the same backend for the same path. A read that is answered with those
/// contents returns them unchanged when they are within its limit.
pub proof fn law_read_returns_what_write_handed_over(
    location: StorageLocation,
    path: Seq<u8>,
    contents: Seq<u8>,
    limit: usize,
    reply: Reply,
)
    requires
        reply is Done,
        reply->Done_0@ == contents,
        contents.len() <= limit,
    ensures
        write_step(location, path, contents, Seq::empty()) == StepView::<
            Result<(), Error>,
        >::Perform(request(location, Operation::Write, path, contents)),
        read_step(location, path, limit, Seq::empty()) == StepView::<
            Result<Seq<u8>, Error>,
        >::Perform(read_request(location, path, limit)),
        read_step(location, path, limit, seq![reply]) == StepView::<
            Result<Seq<u8>, Error>,
        >::Finished(Ok(contents)),
{
}

/// The library's share of a delete. It asks the backend at the location to
/// remove the path and reports `true` exactly when the backend did; and a
/// read that the backend answers with a failure, as it does for an entry
/// that is gone, is a `FilesystemReadFailure`.
pub proof fn law_delete_reports_the_backend(
    location: StorageLocation,
    path: Seq<u8>,
    limit: usize,
    reply: Reply,
)
    ensures
        delete_step(location, path, Seq::empty()) == StepView::<bool>::Perform(
            request(location, Operation::Remove, path, Seq::empty()),
        ),
        delete_step(location, path, seq![reply]) == StepView::<bool>::Finished(reply is Done),
        !(reply is Done) ==> read_step(location, path, limit, seq![reply]) == StepView::<
            Result<Seq<u8>, Error>,
        >::Finished(Err(Error::FilesystemReadFailure)),
{
}

} // verus!
