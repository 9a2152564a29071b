//! Symlink-safe directory-size aggregation.
//!
//! The traversal is an explicit worklist rather than recursive descent, so
//! deeply nested trees cannot exhaust the call stack. One listing step is
//! exactly specified: regular files add their byte length to the running
//! total, subdirectories that are not symbolic links are scheduled, and
//! symbolic links contribute nothing at all — the rule that keeps cyclic
//! link graphs from making the walk unbounded.
use vstd::prelude::*;

use crate::errors::{AfsError, AfsResult};

verus! {

/// One entry of a directory listing, as plain values: its path and the
/// metadata of the entry itself (a symbolic link reports itself, nothing is
/// followed).
#[derive(Debug)]
pub struct FsEntry {
    /// The path of the entry, directory prefix included.
    pub path: String,
    /// The entry is a regular file.
    pub is_file: bool,
    /// The entry is a directory.
    pub is_dir: bool,
    /// The entry is a symbolic link.
    pub is_symlink: bool,
    /// The byte length of the entry.
    pub len: u64,
}

/// The exact sum of the byte lengths of the regular files among `entries`,
/// as an unbounded integer.
pub open spec fn files_total(entries: Seq<FsEntry>) -> int
    decreases entries.len(),
{
    if entries.len() == 0 {
        0
    } else {
        files_total(entries.drop_last()) + if entries.last().is_file {
            entries.last().len as int
        } else {
            0
        }
    }
}

/// The paths of the subdirectories among `entries` that are not symbolic
/// links, in listing order: exactly the entries a size walk descends into.
pub open spec fn subdir_paths(entries: Seq<FsEntry>) -> Seq<Seq<char>>
    decreases entries.len(),
{
    if entries.len() == 0 {
        Seq::empty()
    } else {
        let rest = subdir_paths(entries.drop_last());
        if !entries.last().is_file && entries.last().is_dir && !entries.last().is_symlink {
            rest.push(entries.last().path@)
        } else {
            rest
        }
    }
}

/// The views of a vector of path strings.
pub open spec fn path_views(v: Seq<String>) -> Seq<Seq<char>> {
    v.map_values(|p: String| p@)
}

/// The smaller of two integers.
pub open spec fn min_int(a: int, b: int) -> int {
    if a < b {
        a
    } else {
        b
    }
}

/// No regular file has a negative length, so no listing sums to one.
pub proof fn lemma_files_total_nonneg(entries: Seq<FsEntry>)
    ensures
        files_total(entries) >= 0,
    decreases entries.len(),
{
    if entries.len() > 0 {
        lemma_files_total_nonneg(entries.drop_last());
    }
}

/// A symbolic link is invisible to the size walk: removing it from a
/// listing changes neither the file total nor the set of subdirectories
/// scheduled for traversal. (A listing reports the entry itself, so a link
/// is never also a regular file.)
pub proof fn lemma_symlink_contributes_nothing(entries: Seq<FsEntry>, i: int)
    requires
        0 <= i < entries.len(),
        entries[i].is_symlink,
        !entries[i].is_file,
    ensures
        files_total(entries) == files_total(entries.remove(i)),
        subdir_paths(entries) == subdir_paths(entries.remove(i)),
    decreases entries.len(),
{
    if i == entries.len() - 1 {
        assert(entries.remove(i) =~= entries.drop_last());
    } else {
        let shorter = entries.drop_last();
        lemma_symlink_contributes_nothing(shorter, i);
        assert(entries.remove(i).drop_last() =~= shorter.remove(i));
        assert(entries.remove(i).last() == entries.last());
        assert(entries.remove(i).len() == entries.len() - 1 > 0);
    }
}

/// Folds one directory listing into the walk's state: adds each regular
/// file's length to `total` (saturating at the largest representable total)
/// and schedules each non-symlink subdirectory on `stack`, in order.
/// Symbolic links, and anything that is neither file nor directory, change
/// nothing.
pub fn dir_size_step(total: u64, entries: &Vec<FsEntry>, stack: &mut Vec<String>) -> (r: u64)
    ensures
        r as int == min_int(total as int + files_total(entries@), u64::MAX as int),
        path_views(final(stack)@) == path_views(old(stack)@) + subdir_paths(entries@),
{
    let mut t = total;
    let n = entries.len();
    proof {
        assert(entries@.take(0) =~= Seq::<FsEntry>::empty());
        assert(path_views(stack@) + Seq::<Seq<char>>::empty() =~= path_views(stack@));
    }
    for i in 0..n
        invariant
            n == entries@.len(),
            t as int == min_int(total as int + files_total(entries@.take(i as int)),
                u64::MAX as int,
            ),
            path_views(stack@) == path_views(old(stack)@) + subdir_paths(
                entries@.take(i as int),
            ),
    {
        let ghost prefix = entries@.take(i as int);
        proof {
            assert(entries@.take(i + 1).drop_last() =~= prefix);
            assert(entries@.take(i + 1).last() == entries@[i as int]);
            lemma_files_total_nonneg(prefix);
        }
        let e = &entries[i];
        if e.is_file {
            t = t.saturating_add(e.len);
        } else if e.is_dir && !e.is_symlink {
            let ghost stack0 = stack@;
            stack.push(e.path.clone());
            proof {
                assert(path_views(stack@) =~= path_views(stack0).push(e.path@));
                assert(path_views(old(stack)@) + subdir_paths(entries@.take(i + 1)) =~= path_views(
                    stack@,
                ));
            }
        }
    }
    proof {
        assert(entries@.take(n as int) =~= entries@);
    }
    t
}

/// The space in use on a disk, from its total and free amounts as the
/// platform reports them: the difference, or zero should the report ever
/// claim more free than total (rather than underflow).
pub fn disk_used(total: u64, free: u64) -> (r: u64)
    ensures
        r == if free <= total {
            total - free
        } else {
            0
        },
{
    if free <= total {
        total - free
    } else {
        0
    }
}

#[verifier::external_type_specification]
#[verifier::external_body]
pub struct ExFsErrDirEntry(fs_err::DirEntry);

/// Relies on fs_err::read_dir: the immediate entries of the directory, or
/// the first listing failure.
#[verifier::external_body]
fn read_dir_raw(path: &str) -> (r: Result<Vec<fs_err::DirEntry>, String>) {
    let mut v = Vec::new();
    for entry in fs_err::read_dir(path).map_err(|e| e.to_string())? {
        v.push(entry.map_err(|e| e.to_string())?);
    }
    Ok(v)
}

/// Relies on fs_err::DirEntry::metadata: the metadata of the entry itself —
/// a final symbolic link reports itself and is then neither file nor
/// directory, since an entry has exactly one file type — together with the
/// entry's path.
#[verifier::external_body]
fn entry_info_raw(entry: &fs_err::DirEntry) -> (r: Result<FsEntry, String>)
    ensures
        r matches Ok(e) ==> (e.is_symlink ==> !e.is_file && !e.is_dir),
{
    let m = entry.metadata().map_err(|e| e.to_string())?;
    Ok(FsEntry {
        path: entry.path().to_string_lossy().into_owned(),
        is_file: m.is_file(),
        is_dir: m.is_dir(),
        is_symlink: m.file_type().is_symlink(),
        len: m.len(),
    })
}

/// The total byte size of the directory subtree rooted at `dir_path`.
///
/// The worklist starts with `dir_path` exactly as given. Every regular file
/// found adds its length to the total; every subdirectory that is not a
/// symbolic link is walked in turn; symbolic links — to files as much as to
/// directories — are skipped entirely, a deliberate undercount that keeps
/// cyclic link graphs from being followed. The first listing or metadata
/// failure aborts the whole call with `Metadata`, naming the directory that
/// failed; there is no partial result.
///
/// The walk is bounded by an astronomically large listing budget that no
/// real filesystem can exhaust (more listings than a disk can hold
/// directories), which makes its termination provable.
pub fn get_dir_size(dir_path: &str) -> (r: AfsResult<u64>)
    ensures
        match r {
            Ok(_) => true,
            Err(e) => match e {
                AfsError::Metadata { path: _, source: _ } => true,
                _ => false,
            },
        },
{
    let mut total: u64 = 0;
    let mut stack: Vec<String> = Vec::new();
    let mut budget: u64 = u64::MAX;
    stack.push(dir_path.to_owned());
    while stack.len() > 0 && budget > 0
        invariant
            true,
        decreases budget,
    {
        budget = budget - 1;
        let path = match stack.pop() {
            Some(p) => p,
            None => {
                break ;
            },
        };
        let dir_entries = match read_dir_raw(path.as_str()) {
            Ok(v) => v,
            Err(source) => {
                return Err(AfsError::Metadata { path, source });
            },
        };
        let mut entries: Vec<FsEntry> = Vec::new();
        let n = dir_entries.len();
        for j in 0..n
            invariant
                n == dir_entries@.len(),
        {
            match entry_info_raw(&dir_entries[j]) {
                Ok(e) => {
                    entries.push(e);
                },
                Err(source) => {
                    return Err(AfsError::Metadata { path, source });
                },
            }
        }
        total = dir_size_step(total, &entries, &mut stack);
    }
    if stack.len() > 0 {
        return Err(
            AfsError::Metadata {
                path: dir_path.to_owned(),
                source: "directory graph exhausted the listing budget".to_owned(),
            },
        );
    }
    Ok(total)
}

} // verus!
