//! Validation of the relative paths that clients of the storage service name.
//! Paths follow Unix conventions: `/` separates components.

use vstd::prelude::*;
use vstd::string::*;

use crate::storage::error::StorageError;
use crate::text::{chars_of, separator, seq_starts_with, split_by};

verus! {

/// Why a path is refused.
pub enum PathRejection {
    /// Refused with `StorageError::InvalidPath` and this message.
    Invalid(Seq<char>),
    /// Refused with `StorageError::PathTraversal`.
    Traversal,
}

/// Whether `p` has a `..` component.
pub open spec fn has_parent_component(p: Seq<char>) -> bool {
    exists|i: int|
        0 <= i && i + 2 <= p.len() && #[trigger] p[i] == '.' && p[i + 1] == '.' && (i == 0 || p[i
            - 1] == '/') && (i + 2 == p.len() || p[i + 2] == '/')
}

/// `path` appended to `root` as `Path::join` appends a relative path: with a `/` between
/// them unless `root` is empty or already ends in one.
pub open spec fn join_path(root: Seq<char>, path: Seq<char>) -> Seq<char> {
    if root.len() == 0 || root.last() == '/' {
        root + path
    } else {
        root + seq!['/'] + path
    }
}

/// What `validate_and_resolve` makes of `path` under `root`.
pub open spec fn resolution(root: Seq<char>, path: Seq<char>) -> Result<Seq<char>, PathRejection> {
    if path.len() == 0 {
        Err(PathRejection::Invalid("empty path"@))
    } else if path[0] == '/' {
        Err(PathRejection::Invalid("absolute paths not allowed"@))
    } else if has_parent_component(path) {
        Err(PathRejection::Traversal)
    } else {
        Ok(join_path(root, path))
    }
}

/// Whether a storage result is the outcome `resolution` describes.
pub open spec fn is_resolution(r: Result<String, StorageError>, expected: Result<Seq<char>, PathRejection>) -> bool {
    match expected {
        Ok(p) => r matches Ok(s) && s@ == p,
        Err(PathRejection::Invalid(m)) => r matches Err(StorageError::InvalidPath(s)) && s@ == m,
        Err(PathRejection::Traversal) => r matches Err(StorageError::PathTraversal),
    }
}

/// The word `..` followed by a separator occurs in `p`.
spec fn closed_parent_step(p: Seq<char>) -> bool {
    exists|i: int|
        0 <= i && i + 2 < p.len() && #[trigger] p[i] == '.' && p[i + 1] == '.' && (i == 0 || p[i
            - 1] == '/') && p[i + 2] == '/'
}

/// How many of the words of `p` are followed by a separator: all of them, but the last
/// one when `p` does not end in a separator.
spec fn closed_words(p: Seq<char>) -> int {
    let n = split_by(p, separator(true)).len() as int;
    if p.len() > 0 && p.last() != '/' {
        n - 1
    } else {
        n
    }
}

proof fn lemma_words_and_parent_steps(p: Seq<char>)
    ensures
        p.len() > 0 && p.last() != '/' ==> split_by(p, separator(true)).len() > 0 && exists|st: int|
            0 <= st < p.len() && (st == 0 || p[st - 1] == '/') && (forall|q: int|
                st <= q < p.len() ==> #[trigger] p[q] != '/') && split_by(p, separator(true)).last()
                == p.subrange(st, p.len() as int),
        forall|k: int|
            0 <= k < closed_words(p) && #[trigger] split_by(p, separator(true))[k] == seq!['.', '.']
                ==> closed_parent_step(p),
    decreases p.len(),
{
    let sep = separator(true);
    if p.len() > 0 {
        let q = p.drop_last();
        lemma_words_and_parent_steps(q);
        let c = p.last();
        let prev = split_by(q, sep);
        let n = p.len() as int;
        assert forall|i: int| 0 <= i < q.len() implies #[trigger] q[i] == p[i] by {}
        if c == '/' {
            assert(split_by(p, sep) == prev);
            assert forall|k: int|
                0 <= k < closed_words(p) && #[trigger] split_by(p, sep)[k] == seq!['.', '.']
                implies closed_parent_step(p) by {
                if k < closed_words(q) {
                    let i = choose|i: int|
                        0 <= i && i + 2 < q.len() && #[trigger] q[i] == '.' && q[i + 1] == '.' && (i
                            == 0 || q[i - 1] == '/') && q[i + 2] == '/';
                    assert(p[i] == '.');
                } else {
                    let st = choose|st: int|
                        0 <= st < q.len() && (st == 0 || q[st - 1] == '/') && (forall|r: int|
                            st <= r < q.len() ==> #[trigger] q[r] != '/') && prev.last()
                            == q.subrange(st, q.len() as int);
                    assert(q.subrange(st, q.len() as int).len() == 2);
                    assert(q.subrange(st, q.len() as int)[0] == q[st]);
                    assert(q.subrange(st, q.len() as int)[1] == q[st + 1]);
                    assert(p[st] == '.');
                }
            }
        } else if p.len() == 1 || p[n - 2] == '/' {
            assert(split_by(p, sep) == prev.push(seq![c]));
            if p.len() > 1 {
                assert(q.last() == p[n - 2]);
            }
            assert(closed_words(q) == prev.len());
            assert(p.subrange(n - 1, n) =~= seq![c]);
            assert forall|k: int|
                0 <= k < closed_words(p) && #[trigger] split_by(p, sep)[k] == seq!['.', '.']
                implies closed_parent_step(p) by {
                assert(split_by(p, sep)[k] == prev[k]);
                let i = choose|i: int|
                    0 <= i && i + 2 < q.len() && #[trigger] q[i] == '.' && q[i + 1] == '.' && (i
                        == 0 || q[i - 1] == '/') && q[i + 2] == '/';
                assert(p[i] == '.');
            }
        } else {
            assert(q.last() == p[n - 2]);
            assert(split_by(p, sep) == prev.update(prev.len() - 1, prev.last().push(c)));
            let st = choose|st: int|
                0 <= st < q.len() && (st == 0 || q[st - 1] == '/') && (forall|r: int|
                    st <= r < q.len() ==> #[trigger] q[r] != '/') && prev.last() == q.subrange(
                    st,
                    q.len() as int,
                );
            assert(p.subrange(st, n) =~= q.subrange(st, q.len() as int).push(c));
            assert forall|r: int| st <= r < n implies #[trigger] p[r] != '/' by {
                if r < n - 1 {
                    assert(p[r] == q[r]);
                }
            }
            assert forall|k: int|
                0 <= k < closed_words(p) && #[trigger] split_by(p, sep)[k] == seq!['.', '.']
                implies closed_parent_step(p) by {
                assert(split_by(p, sep)[k] == prev[k]);
                let i = choose|i: int|
                    0 <= i && i + 2 < q.len() && #[trigger] q[i] == '.' && q[i + 1] == '.' && (i
                        == 0 || q[i - 1] == '/') && q[i + 2] == '/';
                assert(p[i] == '.');
            }
        }
    }
}

/// A path that has `..` among its `/`-separated words holds a parent step.
pub proof fn lemma_parent_word_is_parent_step(p: Seq<char>)
    requires
        split_by(p, separator(true)).contains(seq!['.', '.']),
    ensures
        has_parent_component(p),
{
    lemma_words_and_parent_steps(p);
    let w = split_by(p, separator(true));
    let k = choose|k: int| 0 <= k < w.len() && w[k] == seq!['.', '.'];
    if k < closed_words(p) {
        let i = choose|i: int|
            0 <= i && i + 2 < p.len() && #[trigger] p[i] == '.' && p[i + 1] == '.' && (i == 0 || p[i
                - 1] == '/') && p[i + 2] == '/';
        assert(p[i] == '.');
    } else {
        let st = choose|st: int|
            0 <= st < p.len() && (st == 0 || p[st - 1] == '/') && (forall|r: int|
                st <= r < p.len() ==> #[trigger] p[r] != '/') && w.last() == p.subrange(st, p.len() as int);
        assert(p.subrange(st, p.len() as int).len() == 2);
        assert(p.subrange(st, p.len() as int)[0] == p[st]);
        assert(p.subrange(st, p.len() as int)[1] == p[st + 1]);
        assert(p[st] == '.');
    }
}


/// Validates a relative path and resolves it under `root`.
///
/// Rejects empty paths and absolute paths (`InvalidPath`) and paths with a `..` component
/// (`PathTraversal`); every other path is appended to `root`.
pub fn validate_and_resolve(root: &str, path: &str) -> (r: Result<String, StorageError>)
    ensures
        is_resolution(r, resolution(root@, path@)),
{
    let p = chars_of(path);
    let n = p.len();
    if n == 0 {
        return Err(StorageError::InvalidPath(String::from_str("empty path")));
    }
    if p[0] == '/' {
        return Err(StorageError::InvalidPath(String::from_str("absolute paths not allowed")));
    }
    // Each component: a `..` one is a traversal attempt.
    let mut i: usize = 0;
    while i < n
        invariant
            n == p@.len(),
            p@ == path@,
            n > 0 && p@[0] != '/',
            forall|k: int|
                0 <= k < i && k + 2 <= n && #[trigger] p@[k] == '.' && p@[k + 1] == '.' ==> !((k
                    == 0 || p@[k - 1] == '/') && (k + 2 == n || p@[k + 2] == '/')),
        decreases n - i,
    {
        if i + 1 < n && p[i] == '.' && p[i + 1] == '.' && (i == 0 || p[i - 1] == '/') && (i + 2
            == n || p[i + 2] == '/') {
            assert(path@[i as int] == '.');
            return Err(StorageError::PathTraversal);
        }
        i = i + 1;
    }
    let rc = chars_of(root);
    let mut resolved = root.to_owned();
    if rc.len() > 0 && rc[rc.len() - 1] != '/' {
        resolved.append("/");
    }
    let ghost before_path = resolved@;
    resolved.append(path);
    proof {
        reveal_strlit("/");
        assert(resolved@ =~= join_path(root@, path@));
    }
    // The resolved path stays under the root: a relative path without `..` cannot leave it.
    let rv = chars_of(resolved.as_str());
    if !seq_starts_with(&rv, &rc) {
        assert(rc@ =~= rv@.subrange(0, rc@.len() as int));
        return Err(StorageError::PathTraversal);
    }
    Ok(resolved)
}

} // verus!
