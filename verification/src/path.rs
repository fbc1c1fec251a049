//! Paths as byte strings, and the ancestor directories of a path.
use vstd::prelude::*;
use crate::config::PATH_SEPARATOR;

verus! {

/// A path as the backends take it: bytes of ASCII without a NUL, at most
/// `longest` of them. What a separator is makes no difference to it.
pub open spec fn is_path(bytes: Seq<u8>, longest: nat) -> bool {
    bytes.len() <= longest && forall|i: int| 0 <= i < bytes.len() ==> 0 < #[trigger] bytes[i] < 128
}

/// The ancestor directories of `path`, shallowest first: for each separator
/// in `path`, from left to right, everything before it.
///
/// Nothing is normalized: a leading separator gives the empty directory, and
/// two adjacent separators give a directory that ends in a separator.
pub open spec fn ancestors(path: Seq<u8>) -> Seq<Seq<u8>>
    decreases path.len(),
{
    if path.len() == 0 {
        Seq::empty()
    } else if path.last() == PATH_SEPARATOR {
        ancestors(path.drop_last()).push(path.drop_last())
    } else {
        ancestors(path.drop_last())
    }
}

/// The ancestors found in the first `end` bytes of a path are the first
/// ancestors of the whole path.
pub proof fn lemma_ancestors_of_prefix(path: Seq<u8>, end: int)
    requires
        0 <= end <= path.len(),
    ensures
        ancestors(path.take(end)).len() <= ancestors(path).len(),
        ancestors(path.take(end)) == ancestors(path).take(ancestors(path.take(end)).len() as int),
    decreases path.len(),
{
    if end == path.len() {
        assert(path.take(end) =~= path);
        assert(ancestors(path).take(ancestors(path).len() as int) =~= ancestors(path));
    } else {
        let shorter = path.drop_last();
        assert(path.take(end) =~= shorter.take(end));
        lemma_ancestors_of_prefix(shorter, end);
        let found = ancestors(shorter.take(end)).len() as int;
        assert(ancestors(path).take(found) =~= ancestors(shorter).take(found));
    }
}

/// Scanning one byte further finds one more ancestor exactly when that byte
/// is a separator, and the ancestor found is what was scanned before it.
pub proof fn lemma_ancestors_step(path: Seq<u8>, end: int)
    requires
        0 <= end < path.len(),
    ensures
        path[end] == PATH_SEPARATOR ==> ancestors(path.take(end + 1)) == ancestors(
            path.take(end),
        ).push(path.take(end)),
        path[end] != PATH_SEPARATOR ==> ancestors(path.take(end + 1)) == ancestors(path.take(end)),
{
    let longer = path.take(end + 1);
    assert(longer.drop_last() =~= path.take(end));
    assert(longer.last() == path[end]);
}

/// Every ancestor is what stands before some separator of the path.
pub proof fn lemma_ancestor_ends_at_separator(path: Seq<u8>, k: int)
    requires
        0 <= k < ancestors(path).len(),
    ensures
        ancestors(path)[k].len() < path.len(),
        path[ancestors(path)[k].len() as int] == PATH_SEPARATOR,
        ancestors(path)[k] == path.take(ancestors(path)[k].len() as int),
    decreases path.len(),
{
    let shorter = path.drop_last();
    if path.last() == PATH_SEPARATOR && k == ancestors(shorter).len() {
        assert(shorter =~= path.take(shorter.len() as int));
    } else {
        lemma_ancestor_ends_at_separator(shorter, k);
        let n = ancestors(shorter)[k].len() as int;
        assert(shorter.take(n) =~= path.take(n));
    }
}

/// What stands before any separator of the path is one of its ancestors:
/// with [`lemma_ancestor_ends_at_separator`], the ancestors are exactly the
/// beginnings of the path that end before a separator.
pub proof fn law_every_separator_gives_an_ancestor(path: Seq<u8>, at: int)
    requires
        0 <= at < path.len(),
        path[at] == PATH_SEPARATOR,
    ensures
        ancestors(path).contains(path.take(at)),
    decreases path.len(),
{
    let shorter = path.drop_last();
    if at == path.len() - 1 {
        assert(shorter =~= path.take(at));
        assert(ancestors(path).last() == shorter);
    } else {
        law_every_separator_gives_an_ancestor(shorter, at);
        assert(shorter.take(at) =~= path.take(at));
        let k = choose|k: int| 0 <= k < ancestors(shorter).len() && ancestors(shorter)[k] == shorter.take(at);
        assert(ancestors(path)[k] == path.take(at));
    }
}

/// Ancestors come parents first: an earlier ancestor is a proper prefix of
/// every later one.
pub proof fn lemma_ancestors_parents_first(path: Seq<u8>, j: int, k: int)
    requires
        0 <= j < k < ancestors(path).len(),
    ensures
        ancestors(path)[j].len() < ancestors(path)[k].len(),
        ancestors(path)[j] == ancestors(path)[k].take(ancestors(path)[j].len() as int),
    decreases path.len(),
{
    let shorter = path.drop_last();
    if path.last() == PATH_SEPARATOR && k == ancestors(shorter).len() {
        lemma_ancestor_ends_at_separator(shorter, j);
    } else {
        lemma_ancestors_parents_first(shorter, j, k);
    }
}

/// The ancestors of a path that the backends take are paths that they take.
pub proof fn lemma_ancestors_are_paths(path: Seq<u8>, longest: nat, k: int)
    requires
        is_path(path, longest),
        0 <= k < ancestors(path).len(),
    ensures
        is_path(ancestors(path)[k], longest),
{
    lemma_ancestor_ends_at_separator(path, k);
}

/// A copy of the first `end` bytes of `path`.
pub fn prefix(path: &[u8], end: usize) -> (copy: Vec<u8>)
    requires
        end <= path@.len(),
    ensures
        copy@ == path@.take(end as int),
{
    let mut copy: Vec<u8> = Vec::new();
    let mut i: usize = 0;
    while i < end
        invariant
            i <= end <= path@.len(),
            copy@ == path@.take(i as int),
        decreases end - i,
    {
        copy.push(path[i]);
        i += 1;
        assert(copy@ =~= path@.take(i as int));
    }
    copy
}

/// The number of ancestor directories of `path`: the number of its
/// separators.
pub fn depth(path: &[u8]) -> (count: usize)
    ensures
        count == ancestors(path@).len(),
{
    let mut count: usize = 0;
    let mut i: usize = 0;
    while i < path.len()
        invariant
            i <= path@.len(),
            count <= i,
            count == ancestors(path@.take(i as int)).len(),
        decreases path@.len() - i,
    {
        proof {
            lemma_ancestors_step(path@, i as int);
        }
        if path[i] == PATH_SEPARATOR {
            count += 1;
        }
        i += 1;
    }
    assert(path@.take(i as int) =~= path@);
    count
}

} // verus!
