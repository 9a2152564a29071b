//! The blocking filesystem operations: reads, writes, creation and removal,
//! existence tests, metadata, symlinks, and command lookup.
//!
//! Each operation normalizes or canonicalizes its path with the verified
//! path logic, makes the one platform call it is about through a trusted
//! wrapper, and maps the outcome to the library's error values.
use vstd::prelude::*;

use crate::errors::{AfsError, AfsResult};
use crate::fsio::{create_dir_all_raw, create_raw, metadata_raw, open_append_raw,
    read_to_string_raw, remove_dir_all_raw, remove_file_raw, symlink_metadata_raw, symlink_raw,
    write_all_raw, FileStat};
use crate::paths::{is_absolute, normalize_path, normalize_spec, parent_path, pop_on, push_on,
    push_seg_exec, segs_views};
use crate::realpath::get_filepath;
use crate::strutil::{chars_to_string, str_to_chars};

verus! {

/// Reads the whole file at `path` as a UTF-8 string.
///
/// Fails with `ReadFile`, naming `path`, when the file cannot be read.
pub fn read_file_sync(path: &str) -> (r: AfsResult<String>)
    ensures
        match r {
            Ok(_) => true,
            Err(e) => match e {
                AfsError::ReadFile { path: p, source } => p@ == path@,
                _ => false,
            },
        },
{
    match read_to_string_raw(path) {
        Ok(s) => Ok(s),
        Err(source) => Err(AfsError::ReadFile { path: path.to_owned(), source }),
    }
}

/// Creates (or truncates) the file at `path` and writes `content` to it.
///
/// Fails with `CreateFile` when the file cannot be created, and with
/// `WriteFile` when writing fails; both name `path`.
pub fn write_file_sync(path: &str, content: &str) -> (r: AfsResult<()>)
    ensures
        match r {
            Ok(_) => true,
            Err(e) => match e {
                AfsError::CreateFile { path: p, source } => p@ == path@,
                AfsError::WriteFile { path: p, source } => p@ == path@,
                _ => false,
            },
        },
{
    let mut file = match create_raw(path) {
        Ok(f) => f,
        Err(source) => {
            return Err(AfsError::CreateFile { path: path.to_owned(), source });
        },
    };
    match write_all_raw(&mut file, content.as_bytes()) {
        Ok(()) => Ok(()),
        Err(source) => Err(AfsError::WriteFile { path: path.to_owned(), source }),
    }
}

/// Appends `content` to the file at `path`, creating the file first when it
/// does not exist.
///
/// Fails with `WriteFile`, naming `path`, when opening or writing fails.
pub fn append_file_sync(path: &str, content: &str) -> (r: AfsResult<()>)
    ensures
        match r {
            Ok(_) => true,
            Err(e) => match e {
                AfsError::WriteFile { path: p, source } => p@ == path@,
                _ => false,
            },
        },
{
    let mut file = match open_append_raw(path) {
        Ok(f) => f,
        Err(source) => {
            return Err(AfsError::WriteFile { path: path.to_owned(), source });
        },
    };
    match write_all_raw(&mut file, content.as_bytes()) {
        Ok(()) => Ok(()),
        Err(source) => Err(AfsError::WriteFile { path: path.to_owned(), source }),
    }
}

/// Creates the directory at `path` and any missing ancestors.
///
/// Fails with `CreateDir`, naming `path`, when creation fails.
pub fn mkdir_sync(path: &str) -> (r: AfsResult<()>)
    ensures
        match r {
            Ok(_) => true,
            Err(e) => match e {
                AfsError::CreateDir { path: p, source } => p@ == path@,
                _ => false,
            },
        },
{
    match create_dir_all_raw(path) {
        Ok(()) => Ok(()),
        Err(source) => Err(AfsError::CreateDir { path: path.to_owned(), source }),
    }
}

/// Removes the directory at `path` and everything under it.
///
/// Fails with `RemoveDir`, naming `path`, when removal fails (also when the
/// directory does not exist).
pub fn rmdir_sync(path: &str) -> (r: AfsResult<()>)
    ensures
        match r {
            Ok(_) => true,
            Err(e) => match e {
                AfsError::RemoveDir { path: p, source } => p@ == path@,
                _ => false,
            },
        },
{
    match remove_dir_all_raw(path) {
        Ok(()) => Ok(()),
        Err(source) => Err(AfsError::RemoveDir { path: path.to_owned(), source }),
    }
}

/// Removes the file named by `filepath`, canonicalizing it first (so the
/// file must exist).
///
/// Fails with the canonicalization error when the path cannot be resolved,
/// with `EmptyPath` when the resolved path is empty, and with `RemoveFile`,
/// naming the resolved path, when removal fails.
pub fn unlink_sync(filepath: &str) -> (r: AfsResult<()>)
    ensures
        match r {
            Ok(_) => true,
            Err(e) => match e {
                AfsError::RemoveFile { path: _, source: _ } => true,
                AfsError::Canonicalize { path: p, source } => p@ == normalize_spec(filepath@),
                AfsError::InvalidUnicode(_) => true,
                AfsError::EmptyPath => true,
                _ => false,
            },
        },
{
    let path = match get_filepath(filepath) {
        Ok(p) => p,
        Err(e) => {
            return Err(e);
        },
    };
    if path.as_str().unicode_len() == 0 {
        return Err(AfsError::EmptyPath);
    }
    match remove_file_raw(path.as_str()) {
        Ok(()) => Ok(()),
        Err(source) => Err(AfsError::RemoveFile { path, source }),
    }
}

/// Whether `filepath` (separators normalized) names an existing entry.
pub fn exists_sync(filepath: &str) -> bool {
    let normalized = normalize_path(filepath);
    match metadata_raw(normalized.as_str()) {
        Ok(_) => true,
        Err(_) => false,
    }
}

/// Whether `filepath` (separators normalized) names an existing regular
/// file.
pub fn is_file_sync(filepath: &str) -> bool {
    let normalized = normalize_path(filepath);
    match metadata_raw(normalized.as_str()) {
        Ok(st) => st.is_file,
        Err(_) => false,
    }
}

/// Whether `filepath` (separators normalized) names an existing directory.
pub fn is_dir_sync(filepath: &str) -> bool {
    let normalized = normalize_path(filepath);
    match metadata_raw(normalized.as_str()) {
        Ok(st) => st.is_dir,
        Err(_) => false,
    }
}

/// Whether `filepath` (separators normalized) names a symbolic link. The
/// link itself is inspected, not its target.
pub fn is_symlink_sync(filepath: &str) -> bool {
    let normalized = normalize_path(filepath);
    match symlink_metadata_raw(normalized.as_str()) {
        Ok(st) => st.is_symlink,
        Err(_) => false,
    }
}

/// The metadata of the entry named by `filepath`, canonicalized first (so
/// the entry must exist).
///
/// Fails with the canonicalization error when the path cannot be resolved,
/// with `EmptyPath` when the resolved path is empty, and with `Metadata`
/// when the fetch itself fails.
pub fn stat_sync(filepath: &str) -> (r: AfsResult<FileStat>)
    ensures
        match r {
            Ok(_) => true,
            Err(e) => match e {
                AfsError::Metadata { path: _, source: _ } => true,
                AfsError::Canonicalize { path: p, source } => p@ == normalize_spec(filepath@),
                AfsError::InvalidUnicode(_) => true,
                AfsError::EmptyPath => true,
                _ => false,
            },
        },
{
    let path = match get_filepath(filepath) {
        Ok(p) => p,
        Err(e) => {
            return Err(e);
        },
    };
    if path.as_str().unicode_len() == 0 {
        return Err(AfsError::EmptyPath);
    }
    match metadata_raw(path.as_str()) {
        Ok(st) => Ok(st),
        Err(source) => Err(AfsError::Metadata { path, source }),
    }
}

/// Creates `l` as a symbolic link pointing at `o`.
///
/// Fails with `CreateFile`, naming `l`, when the link cannot be created.
pub fn soft_link(o: &str, l: &str) -> (r: AfsResult<()>)
    ensures
        match r {
            Ok(_) => true,
            Err(e) => match e {
                AfsError::CreateFile { path: p, source } => p@ == l@,
                _ => false,
            },
        },
{
    match symlink_raw(o, l) {
        Ok(()) => Ok(()),
        Err(source) => Err(AfsError::CreateFile { path: l.to_owned(), source }),
    }
}

/// Makes sure a regular file exists at `filepath` (separators normalized):
/// missing parent directories are created, and the file itself is created
/// empty when absent. An existing regular file is left as it is.
///
/// Fails with `NotAFile` (naming the normalized path) when the path exists
/// but is not a regular file, with `ParentNotDir` or `CreateDir` (naming
/// the parent) when the parent exists as a non-directory or cannot be
/// created, and with `CreateFile` when the file itself cannot be created.
pub fn create_file_sync(filepath: &str) -> (r: AfsResult<()>)
    ensures
        match r {
            Ok(_) => true,
            Err(e) => match e {
                AfsError::NotAFile(p) => p@ == normalize_spec(filepath@),
                AfsError::ParentNotDir(p) => p@ == pop_on(normalize_spec(filepath@)),
                AfsError::CreateDir { path: p, source } => p@ == pop_on(normalize_spec(filepath@)),
                AfsError::CreateFile { path: p, source } => p@ == normalize_spec(filepath@),
                _ => false,
            },
        },
{
    let normalized = normalize_path(filepath);
    match metadata_raw(normalized.as_str()) {
        Ok(st) => {
            if st.is_file {
                return Ok(());
            } else {
                return Err(AfsError::NotAFile(normalized));
            }
        },
        Err(_) => {},
    }
    match parent_path(normalized.as_str()) {
        Some(parent) => {
            match metadata_raw(parent.as_str()) {
                Ok(st) => {
                    if !st.is_dir {
                        return Err(AfsError::ParentNotDir(parent));
                    }
                },
                Err(u) => {
                    match create_dir_all_raw(parent.as_str()) {
                        Ok(()) => {},
                        Err(source) => {
                            return Err(AfsError::CreateDir { path: parent, source });
                        },
                    }
                },
            }
        },
        None => {},
    }
    match create_raw(normalized.as_str()) {
        Ok(_) => Ok(()),
        Err(source) => Err(AfsError::CreateFile { path: normalized, source }),
    }
}

/// The entries of a search-path variable: the runs of characters between
/// `:` separators, empty runs kept (an empty entry means the current
/// directory, as the platform's own splitting has it).
pub open spec fn colon_split_from(s: Seq<char>, cur: Seq<char>) -> Seq<Seq<char>>
    decreases s.len(),
{
    if s.len() == 0 {
        seq![cur]
    } else if s[0] == ':' {
        seq![cur] + colon_split_from(s.drop_first(), Seq::empty())
    } else {
        colon_split_from(s.drop_first(), cur.push(s[0]))
    }
}

/// The directories a search-path variable names, in order.
pub open spec fn search_path_dirs(s: Seq<char>) -> Seq<Seq<char>> {
    colon_split_from(s, Seq::empty())
}

/// The path at which one search directory would hold the command: the
/// command itself when absolute, the command appended to the directory
/// otherwise.
pub open spec fn candidate_in(dir: Seq<char>, command: Seq<char>) -> Seq<char> {
    if is_absolute(command) {
        command
    } else {
        push_on(dir, command)
    }
}

fn split_search_path(s: &str) -> (v: Vec<Vec<char>>)
    ensures
        segs_views(v@) == search_path_dirs(s@),
{
    let n = s.unicode_len();
    let mut v: Vec<Vec<char>> = Vec::new();
    let mut cur: Vec<char> = Vec::new();
    assert(s@.skip(0) == s@);
    assert(segs_views(v@) =~= Seq::<Seq<char>>::empty());
    for i in 0..n
        invariant
            n == s@.len(),
            segs_views(v@) + colon_split_from(s@.skip(i as int), cur@) == search_path_dirs(s@),
    {
        let ghost s_i = s@.skip(i as int);
        let ghost cur0 = cur@;
        let ghost v0 = v@;
        let c = s.get_char(i);
        proof {
            assert(s_i[0] == s@[i as int]);
            assert(s_i.drop_first() =~= s@.skip(i + 1));
        }
        if c == ':' {
            v.push(cur);
            cur = Vec::new();
            proof {
                let rest = colon_split_from(s@.skip(i + 1), Seq::empty());
                assert(colon_split_from(s_i, cur0) == seq![cur0] + rest);
                assert(segs_views(v@) =~= segs_views(v0).push(cur0));
                assert(segs_views(v0) + (seq![cur0] + rest) =~= segs_views(v@) + rest);
                assert(cur@ == Seq::<char>::empty());
            }
        } else {
            cur.push(c);
            proof {
                assert(cur@ == cur0.push(c));
                assert(colon_split_from(s_i, cur0) == colon_split_from(s@.skip(i + 1), cur@));
            }
        }
    }
    let ghost v0 = v@;
    let ghost cur0 = cur@;
    v.push(cur);
    proof {
        assert(s@.skip(n as int) =~= Seq::<char>::empty());
        assert(colon_split_from(Seq::<char>::empty(), cur0) == seq![cur0]);
        assert(segs_views(v@) =~= segs_views(v0).push(cur0));
        assert(segs_views(v0) + seq![cur0] =~= segs_views(v@));
    }
    v
}

/// Looks `command` up in the directories of `path_var` (a `:`-separated
/// search-path list): the first directory holding it as a regular file
/// wins, and the returned path is that directory with the command appended.
///
/// Fails with `CommandNotFound`, carrying the command, when no directory
/// holds it.
pub fn which_in_path(path_var: &str, command: &str) -> (r: AfsResult<String>)
    ensures
        match r {
            Ok(s) => exists|k: int|
                0 <= k < search_path_dirs(path_var@).len() && s@ == candidate_in(
                    #[trigger] search_path_dirs(path_var@)[k],
                    command@,
                ),
            Err(e) => match e {
                AfsError::CommandNotFound(c) => c@ == command@,
                _ => false,
            },
        },
{
    let dirs = split_search_path(path_var);
    let cmdv = str_to_chars(command);
    let n = dirs.len();
    for k in 0..n
        invariant
            n == dirs@.len(),
            segs_views(dirs@) == search_path_dirs(path_var@),
            cmdv@ == command@,
    {
        let mut acc: Vec<char> = Vec::new();
        acc.extend_from_slice(dirs[k].as_slice());
        let is_abs = cmdv.len() > 0 && cmdv[0] == '/';
        let candidate: String = if is_abs {
            command.to_owned()
        } else {
            push_seg_exec(&mut acc, &cmdv);
            chars_to_string(&acc)
        };
        proof {
            assert(candidate@ == candidate_in(segs_views(dirs@)[k as int], command@));
        }
        match metadata_raw(candidate.as_str()) {
            Ok(st) => {
                if st.is_file {
                    return Ok(candidate);
                }
            },
            Err(_) => {},
        }
    }
    Err(AfsError::CommandNotFound(command.to_owned()))
}

} // verus!
