//! The trusted boundary to the platform filesystem.
//!
//! Every function here is a thin wrapper around one call of the `fs_err`
//! crate (or of `std::io` on one of its files). Their contracts state only
//! what holds of every outcome; everything the library decides on these
//! results is verified elsewhere.
use vstd::prelude::*;

verus! {

/// What a metadata fetch reports about one filesystem entry, as plain
/// values: the kind flags, the byte length, and whether the entry is
/// read-only.
#[derive(Clone, Copy, Debug, PartialEq, Eq, Structural)]
pub struct FileStat {
    /// The entry is a regular file.
    pub is_file: bool,
    /// The entry is a directory.
    pub is_dir: bool,
    /// The entry is a symbolic link (reported only by a fetch that does not
    /// follow links).
    pub is_symlink: bool,
    /// The byte length of the entry.
    pub len: u64,
    /// The entry is read-only for the current user.
    pub readonly: bool,
}

/// What resolving a path through the platform produced: the path as text,
/// a path that exists but is not representable as text, or a failure.
pub(crate) enum RawPathOutcome {
    /// The call succeeded and the path is valid text.
    Path(String),
    /// The call succeeded but the path is not valid text; the payload is a
    /// lossy rendering for diagnostics.
    NotUnicode(String),
    /// The call failed; the payload is the platform error's message.
    Failed(String),
}

#[verifier::external_type_specification]
#[verifier::external_body]
pub struct ExFsErrFile(fs_err::File);

/// Relies on fs_err::metadata: follows symlinks and reports the kind, the
/// byte length and the permissions of the entry found, or the platform
/// error. Through a followed symlink the reported kind is never a symlink.
#[verifier::external_body]
pub(crate) fn metadata_raw(path: &str) -> (r: Result<FileStat, String>) {
    match fs_err::metadata(path) {
        Ok(m) => Ok(FileStat {
            is_file: m.is_file(),
            is_dir: m.is_dir(),
            is_symlink: m.file_type().is_symlink(),
            len: m.len(),
            readonly: m.permissions().readonly(),
        }),
        Err(e) => Err(e.to_string()),
    }
}

/// Relies on fs_err::symlink_metadata: as `metadata_raw`, but does not
/// follow a final symlink, so a link reports itself.
#[verifier::external_body]
pub(crate) fn symlink_metadata_raw(path: &str) -> (r: Result<FileStat, String>) {
    match fs_err::symlink_metadata(path) {
        Ok(m) => Ok(FileStat {
            is_file: m.is_file(),
            is_dir: m.is_dir(),
            is_symlink: m.file_type().is_symlink(),
            len: m.len(),
            readonly: m.permissions().readonly(),
        }),
        Err(e) => Err(e.to_string()),
    }
}

/// Relies on fs_err::read_to_string: returns the file's content decoded as
/// UTF-8, or the platform error.
#[verifier::external_body]
pub(crate) fn read_to_string_raw(path: &str) -> (r: Result<String, String>) {
    fs_err::read_to_string(path).map_err(|e| e.to_string())
}

/// Relies on fs_err::File::create: creates (or truncates) the file and
/// returns a writable handle to it.
#[verifier::external_body]
pub(crate) fn create_raw(path: &str) -> (r: Result<fs_err::File, String>) {
    fs_err::File::create(path).map_err(|e| e.to_string())
}

/// Relies on fs_err::OpenOptions::open with append and create set: opens
/// the file for appending, creating it first when it does not exist.
#[verifier::external_body]
pub(crate) fn open_append_raw(path: &str) -> (r: Result<fs_err::File, String>) {
    fs_err::OpenOptions::new().append(true).create(true).open(path).map_err(|e| e.to_string())
}

/// Relies on fs_err::File::open: opens the file read-only.
#[verifier::external_body]
pub(crate) fn open_read_raw(path: &str) -> (r: Result<fs_err::File, String>) {
    fs_err::File::open(path).map_err(|e| e.to_string())
}

/// Relies on std::io::Read::read on an fs_err file: hands back the next
/// chunk of the stream, at most 8192 bytes of it, empty at end of stream.
#[verifier::external_body]
pub(crate) fn read_chunk_raw(file: &mut fs_err::File) -> (r: Result<Vec<u8>, String>)
    ensures
        r matches Ok(v) ==> v@.len() <= 8192,
{
    let mut buf = [0u8; 8192];
    match std::io::Read::read(file, &mut buf) {
        Ok(n) => Ok(buf[..n].to_vec()),
        Err(e) => Err(e.to_string()),
    }
}

/// Relies on std::io::Write::write_all on an fs_err file: writes the whole
/// buffer or reports the first failure.
#[verifier::external_body]
pub(crate) fn write_all_raw(file: &mut fs_err::File, data: &[u8]) -> (r: Result<(), String>) {
    std::io::Write::write_all(file, data).map_err(|e| e.to_string())
}

/// Relies on fs_err::create_dir_all: creates the directory and any missing
/// ancestors; succeeds when it already exists.
#[verifier::external_body]
pub(crate) fn create_dir_all_raw(path: &str) -> (r: Result<(), String>) {
    fs_err::create_dir_all(path).map_err(|e| e.to_string())
}

/// Relies on fs_err::remove_dir_all: removes the directory and everything
/// under it, or reports the platform error.
#[verifier::external_body]
pub(crate) fn remove_dir_all_raw(path: &str) -> (r: Result<(), String>) {
    fs_err::remove_dir_all(path).map_err(|e| e.to_string())
}

/// Relies on fs_err::remove_file: removes the file, or reports the platform
/// error.
#[verifier::external_body]
pub(crate) fn remove_file_raw(path: &str) -> (r: Result<(), String>) {
    fs_err::remove_file(path).map_err(|e| e.to_string())
}

/// Relies on fs_err::canonicalize: on success the returned path is the
/// canonical, absolute form of an existing entry, which is never empty.
#[verifier::external_body]
pub(crate) fn canonicalize_raw(path: &str) -> (r: RawPathOutcome)
    ensures
        r matches RawPathOutcome::Path(s) ==> s@.len() > 0,
{
    match fs_err::canonicalize(path) {
        Ok(pb) => match pb.to_str() {
            Some(s) => RawPathOutcome::Path(s.to_string()),
            None => RawPathOutcome::NotUnicode(pb.display().to_string()),
        },
        Err(e) => RawPathOutcome::Failed(e.to_string()),
    }
}

/// Relies on fs_err::os::unix::fs::symlink: creates `link` as a symbolic
/// link pointing at `original`.
#[verifier::external_body]
pub(crate) fn symlink_raw(original: &str, link: &str) -> (r: Result<(), String>) {
    fs_err::os::unix::fs::symlink(original, link).map_err(|e| e.to_string())
}

} // verus!
