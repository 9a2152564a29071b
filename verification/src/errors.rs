//! Error values returned by the library.
//!
//! Every fallible operation reports a structured error that names the path
//! (or command) it concerns and, where a platform call failed underneath,
//! carries that failure's message as its `source` text.
use vstd::prelude::*;

verus! {

/// The error type of the library.
///
/// Errors are inspectable values: callers match on the variant to decide
/// whether to surface, map or recover. No operation retries or returns a
/// partial result; the first failure is the only one reported.
#[derive(Debug)]
pub enum AfsError {
    /// Reading a file failed.
    ReadFile { path: String, source: String },
    /// Writing to a file failed.
    WriteFile { path: String, source: String },
    /// Creating a file failed.
    CreateFile { path: String, source: String },
    /// Removing a file failed.
    RemoveFile { path: String, source: String },
    /// Creating a directory failed.
    CreateDir { path: String, source: String },
    /// Removing a directory failed.
    RemoveDir { path: String, source: String },
    /// Fetching metadata failed.
    Metadata { path: String, source: String },
    /// Parsing JSON read from a file failed.
    JsonParse { path: String, source: String },
    /// Serializing a value to JSON failed.
    JsonSerialize(String),
    /// Resolving a path to its canonical form failed; the path usually
    /// does not exist.
    Canonicalize { path: String, source: String },
    /// A path could not be represented as valid text.
    InvalidUnicode(String),
    /// The path does not name an existing entry.
    PathNotFound(String),
    /// The path exists but is not a regular file.
    NotAFile(String),
    /// The parent of the path exists but is not a directory.
    ParentNotDir(String),
    /// An empty path was given where a real one is required.
    EmptyPath,
    /// A permission mode string was not a valid octal number.
    InvalidMode(String),
    /// Disk usage information could not be obtained.
    DiskInfo(String),
    /// A temporary directory could not be created.
    TempDir(String),
    /// The named command was not found on the search path.
    CommandNotFound(String),
    /// A path component (file name or parent) could not be extracted.
    PathComponent(String),
}

/// The result type used throughout the library.
pub type AfsResult<T> = Result<T, AfsError>;

/// Alias kept for callers that prefer the generic name.
pub type AnyResult<T> = AfsResult<T>;

} // verus!
