//! The storage service: a root directory under which every client path is resolved.

use vstd::prelude::*;
use vstd::string::*;

use crate::storage::error::StorageError;
use crate::storage::fs::{is_resolution, resolution, validate_and_resolve, PathRejection};
use crate::text::{chars_of, is_whitespace, is_ws};

verus! {

/// Whether `s` is empty once leading and trailing whitespace is trimmed.
pub open spec fn blank(s: Seq<char>) -> bool {
    forall|k: int| 0 <= k < s.len() ==> is_ws(#[trigger] s[k])
}

/// Whether `s` holds nothing but whitespace.
pub fn is_blank(s: &str) -> (r: bool)
    ensures
        r == blank(s@),
{
    let cs = chars_of(s);
    let mut i: usize = 0;
    while i < cs.len()
        invariant
            cs@ == s@,
            i <= cs@.len(),
            forall|k: int| 0 <= k < i ==> is_ws(#[trigger] cs@[k]),
        decreases cs.len() - i,
    {
        if !is_whitespace(cs[i]) {
            return false;
        }
        i = i + 1;
    }
    true
}

/// What `for_session` makes of a session subject under `root`.
pub open spec fn session_root(root: Seq<char>, sub: Seq<char>) -> Result<Seq<char>, PathRejection> {
    if blank(sub) {
        Err(PathRejection::Invalid("empty session subject"@))
    } else {
        resolution(root, sub)
    }
}

/// Service for managing file storage under one root directory; every path it is handed
/// is validated and resolved relative to that root.
#[derive(Debug)]
pub struct StorageService {
    root: String,
}

impl StorageService {
    pub closed spec fn root_path(&self) -> Seq<char> {
        self.root@
    }

    /// A service rooted at `root`.
    pub fn new(root: &str) -> (r: Self)
        ensures
            r.root_path() == root@,
    {
        StorageService { root: root.to_owned() }
    }

    /// The directory this service is rooted at.
    pub fn root(&self) -> (r: &str)
        ensures
            r@ == self.root_path(),
    {
        self.root.as_str()
    }

    /// A service rooted at the session subject's directory under this root.
    pub fn for_session(&self, sub: &str) -> (r: Result<Self, StorageError>)
        ensures
            match session_root(self.root_path(), sub@) {
                Ok(p) => r matches Ok(s) && s.root_path() == p,
                Err(PathRejection::Invalid(m)) => r matches Err(StorageError::InvalidPath(s))
                    && s@ == m,
                Err(PathRejection::Traversal) => r matches Err(StorageError::PathTraversal),
            },
    {
        if is_blank(sub) {
            return Err(StorageError::InvalidPath(String::from_str("empty session subject")));
        }
        match validate_and_resolve(self.root.as_str(), sub) {
            Ok(resolved) => Ok(StorageService { root: resolved }),
            Err(e) => Err(e),
        }
    }

    /// The file-system path that a client path names under this service's root.
    pub fn resolve(&self, path: &str) -> (r: Result<String, StorageError>)
        ensures
            is_resolution(r, resolution(self.root_path(), path@)),
    {
        validate_and_resolve(self.root.as_str(), path)
    }
}

} // verus!
