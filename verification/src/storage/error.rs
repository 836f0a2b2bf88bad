//! Errors of the file storage service.

use vstd::prelude::*;
use vstd::string::*;

verus! {

/// `std::io::Error`, carried through as an opaque value.
#[verifier::external_type_specification]
#[verifier::external_body]
pub struct ExIoError(std::io::Error);

/// Why a storage operation failed.
#[derive(Debug)]
pub enum StorageError {
    InvalidPath(String),
    PathTraversal,
    NotFound,
    IoError(std::io::Error),
}

/// Whether the kind of an I/O error is `ErrorKind::NotFound`. The kind is a property of
/// the error value alone.
pub uninterp spec fn io_error_not_found(err: std::io::Error) -> bool;

/// `std::io::Error::kind` compared with `ErrorKind::NotFound`: whether the error reports
/// that the file or directory does not exist, as named by `io_error_not_found`.
#[verifier::external_body]
fn io_error_is_not_found(err: &std::io::Error) -> (r: bool)
    ensures
        r == io_error_not_found(*err),
{
    err.kind() == std::io::ErrorKind::NotFound
}

/// The text of an I/O error (its `Display` output). Nothing is stated of the text.
#[verifier::external_body]
fn io_error_text(err: &std::io::Error) -> String {
    format!("{}", err)
}

impl StorageError {
    /// Classifies an I/O error: a missing file or directory becomes `NotFound`, any other
    /// error is kept as it is.
    pub fn from_io(err: std::io::Error) -> (r: Self)
        ensures
            io_error_not_found(err) ==> r is NotFound,
            !io_error_not_found(err) ==> r == StorageError::IoError(err),
    {
        if io_error_is_not_found(&err) {
            StorageError::NotFound
        } else {
            StorageError::IoError(err)
        }
    }

    /// The message this error is shown with.
    pub fn message(&self) -> (r: String)
        ensures
            match self {
                StorageError::InvalidPath(m) => r@ == "invalid path: "@ + m@,
                StorageError::PathTraversal => r@ == "path traversal attempt detected"@,
                StorageError::NotFound => r@ == "file not found"@,
                StorageError::IoError(_) => "io error: "@.is_prefix_of(r@),
            },
    {
        match self {
            StorageError::InvalidPath(m) => {
                let mut s = String::from_str("invalid path: ");
                s.append(m.as_str());
                s
            },
            StorageError::PathTraversal => String::from_str("path traversal attempt detected"),
            StorageError::NotFound => String::from_str("file not found"),
            StorageError::IoError(e) => {
                let mut s = String::from_str("io error: ");
                let t = io_error_text(e);
                s.append(t.as_str());
                assert("io error: "@ =~= s@.subrange(0, "io error: "@.len() as int));
                s
            },
        }
    }
}

} // verus!
