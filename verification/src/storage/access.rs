//! The kinds of access a storage grant can give.

use vstd::prelude::*;

verus! {

#[derive(Clone, Copy, Debug, PartialEq, Eq, Structural)]
pub enum StorageAccess {
    Read,
    Write,
    List,
    Metadata,
    Delete,
    Rename,
}

} // verus!
