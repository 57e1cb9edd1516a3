//! The error taxonomy of the layout manager.
//!
//! A `ValidationError` reports an invalid argument and is raised before any
//! filesystem work; the other three kinds classify an operating-system
//! failure once, at the point of the failed call, tagged with a short
//! context string naming the operation.  A permission failure deliberately
//! omits the path from its message; a not-found failure includes it.

use vstd::prelude::*;

verus! {

/// The classification of an operating-system failure, as the shell around
/// this crate reads it off the failed call.
#[derive(Clone, Copy, Debug, PartialEq, Eq, Structural)]
pub enum IoFailureKind {
    NotFound,
    PermissionDenied,
    Other,
}

/// An error of the layout manager: an invalid argument, a missing target,
/// a denied operation, or any other I/O failure, each with its message.
#[derive(Debug, PartialEq, Eq)]
pub enum FsError {
    Validation(String),
    NotFound(String),
    Permission(String),
    Io(String),
}

impl FsError {
    /// The message carried by the error, whatever its kind.
    pub open spec fn spec_message(&self) -> Seq<char> {
        match self {
            FsError::Validation(m) => m@,
            FsError::NotFound(m) => m@,
            FsError::Permission(m) => m@,
            FsError::Io(m) => m@,
        }
    }

    /// The message carried by the error.
    pub fn message(&self) -> (r: &str)
        ensures
            r@ == self.spec_message(),
    {
        match self {
            FsError::Validation(m) => m.as_str(),
            FsError::NotFound(m) => m.as_str(),
            FsError::Permission(m) => m.as_str(),
            FsError::Io(m) => m.as_str(),
        }
    }
}

/// The message of the validation error for an empty directory name.
pub open spec fn empty_name_message() -> Seq<char> {
    "Directory name must not be empty"@
}

/// The message of the validation error for a negative partition index.
pub open spec fn negative_index_message() -> Seq<char> {
    "Index must be non-negative"@
}

/// The message of the not-found error for enumerating a directory that
/// was never materialized.
pub open spec fn missing_dir_message(path: Seq<char>) -> Seq<char> {
    "Directory does not exist: "@ + path
}

/// The message reported when `context` failed because its target `path`
/// does not exist.
pub open spec fn not_found_message(context: Seq<char>, path: Seq<char>) -> Seq<char> {
    context + " failed: File or directory not found: "@ + path
}

/// The message reported when `context` was denied; the path is left out.
pub open spec fn permission_message(context: Seq<char>) -> Seq<char> {
    context + " failed: Permission denied."@
}

/// The message reported when `context` failed for any other reason.
pub open spec fn io_message(context: Seq<char>) -> Seq<char> {
    context + " failed: An I/O error occurred."@
}

/// The validation error for an empty directory name.
pub fn validation_empty_name() -> (r: FsError)
    ensures
        r matches FsError::Validation(m) && m@ == empty_name_message(),
{
    FsError::Validation(String::from_str("Directory name must not be empty"))
}

/// The validation error for a negative partition index.
pub fn validation_negative_index() -> (r: FsError)
    ensures
        r matches FsError::Validation(m) && m@ == negative_index_message(),
{
    FsError::Validation(String::from_str("Index must be non-negative"))
}

/// Maps one operating-system failure to the error taxonomy: a not-found
/// failure keeps the offending path in its message, a denied operation
/// only names the context, and anything else becomes a generic I/O error.
pub fn map_io_err(kind: IoFailureKind, context: &str, path: &str) -> (r: FsError)
    ensures
        kind is NotFound ==> (r matches FsError::NotFound(m) && m@ == not_found_message(
            context@,
            path@,
        )),
        kind is PermissionDenied ==> (r matches FsError::Permission(m) && m@ == permission_message(
            context@,
        )),
        kind is Other ==> (r matches FsError::Io(m) && m@ == io_message(context@)),
{
    match kind {
        IoFailureKind::NotFound => FsError::NotFound(
            context.to_owned().concat(" failed: File or directory not found: ").concat(path),
        ),
        IoFailureKind::PermissionDenied => FsError::Permission(
            context.to_owned().concat(" failed: Permission denied."),
        ),
        IoFailureKind::Other => FsError::Io(
            context.to_owned().concat(" failed: An I/O error occurred."),
        ),
    }
}

} // verus!
