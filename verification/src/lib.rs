//! A small filesystem utility layer: path resolution and normalization,
//! canonicalization, symlink-safe directory-size aggregation, and streaming
//! content hashing, together with thin helpers over the platform filesystem.
//!
//! The path logic is pure and fully specified; operations that touch the
//! filesystem go through small trusted wrappers around the `fs_err` crate,
//! and everything decided on their results is verified.

mod digest;
mod errors;
mod fsio;
mod fsops;
mod paths;
mod perms;
mod realpath;
mod size;
mod strutil;
mod temp;

pub use digest::{
    digest_of, hash_bytes, hash_sync, hex_digit, hex_of, is_lower_hex_char,
    lemma_digest_deterministic, lemma_hex_of_shape, sha256_of, to_hex_lower, Sha256Stream,
};
pub use errors::{AfsError, AfsResult, AnyResult};
pub use fsio::FileStat;
pub use fsops::{
    append_file_sync, candidate_in, colon_split_from, create_file_sync, exists_sync, is_dir_sync,
    is_file_sync, is_symlink_sync, mkdir_sync, read_file_sync, rmdir_sync, search_path_dirs,
    soft_link, stat_sync, unlink_sync, which_in_path, write_file_sync,
};
pub use paths::{
    apply_component, at_root, basename, dirname, drop_last_segment, file_name_spec, filename,
    fold_components, is_absolute, last_real_segment, lemma_normalize_idempotent,
    lemma_normalize_no_backslash, lemma_pop_undoes_push, lemma_resolve_absolute_ignores_base,
    lemma_resolve_dot_components, normalize_path, normalize_spec, parent_path, pop_on, push_on,
    resolve, resolve_spec, segments, segments_from, segs_views, split_segments, trim_seps,
};
pub use perms::{
    is_octal_digit, lemma_octal_val_nonneg, lemma_octal_val_prefix, octal_val, parse_octal_mode,
    readonly_flag_for_mode,
};
pub use realpath::{
    get_filepath, has_verbatim_prefix, strip_platform_prefix, strip_verbatim_prefix,
};
pub use size::{
    dir_size_step, disk_used, files_total, get_dir_size, lemma_files_total_nonneg,
    lemma_symlink_contributes_nothing, min_int, path_views, subdir_paths, FsEntry,
};
pub use temp::{
    base62_of, create_tempdir, create_tempfile, encode_base62, name_char, random_file_name,
};
