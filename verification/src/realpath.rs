//! Canonicalization: resolving a path to the absolute, symlink-free form of
//! an existing entry, tolerating mixed separators on the way in and
//! stripping the platform's long-path marker on the way out.
use vstd::prelude::*;

use crate::errors::{AfsError, AfsResult};
use crate::fsio::{canonicalize_raw, RawPathOutcome};
use crate::paths::{normalize_path, normalize_spec};

verus! {

/// `s` begins with the long-path marker `\\?\` that one platform family
/// prefixes to canonicalized absolute paths.
pub open spec fn has_verbatim_prefix(s: Seq<char>) -> bool {
    s.len() >= 4 && s.subrange(0, 4) == seq!['\\', '\\', '?', '\\']
}

/// `s` without a leading long-path marker: the marker is stripped so that
/// canonical paths compare equal across platforms.
pub open spec fn strip_verbatim_prefix(s: Seq<char>) -> Seq<char> {
    if has_verbatim_prefix(s) {
        s.skip(4)
    } else {
        s
    }
}

/// Removes the leading long-path marker `\\?\` from `s`, when present.
pub fn strip_platform_prefix(s: &str) -> (r: String)
    ensures
        r@ == strip_verbatim_prefix(s@),
{
    let n = s.unicode_len();
    if n >= 4 && s.get_char(0) == '\\' && s.get_char(1) == '\\' && s.get_char(2) == '?'
        && s.get_char(3) == '\\' {
        assert(s@.subrange(0, 4) =~= seq!['\\', '\\', '?', '\\']);
        let rest = s.substring_char(4, n);
        rest.to_owned()
    } else {
        assert(!has_verbatim_prefix(s@)) by {
            if s@.len() >= 4 && s@.subrange(0, 4) == seq!['\\', '\\', '?', '\\'] {
                assert(s@.subrange(0, 4)[0] == s@[0]);
                assert(s@.subrange(0, 4)[1] == s@[1]);
                assert(s@.subrange(0, 4)[2] == s@[2]);
                assert(s@.subrange(0, 4)[3] == s@[3]);
            }
        }
        s.to_owned()
    }
}

/// Resolves `path` to the absolute, symlink-free form of an existing entry.
///
/// Separators are normalized before the platform is asked, so mixed input
/// is tolerated; a long-path marker on the answer is stripped. Fails with
/// `Canonicalize` (naming the normalized path) when the entry does not
/// exist or cannot be resolved, and with `InvalidUnicode` when the resolved
/// path is not representable as text.
pub fn get_filepath(path: &str) -> (r: AfsResult<String>)
    ensures
        match r {
            Ok(s) => true,
            Err(e) => match e {
                AfsError::Canonicalize { path: p, source } => p@ == normalize_spec(path@),
                AfsError::InvalidUnicode(_) => true,
                _ => false,
            },
        },
{
    let normalized = normalize_path(path);
    match canonicalize_raw(normalized.as_str()) {
        RawPathOutcome::Path(s) => Ok(strip_platform_prefix(s.as_str())),
        RawPathOutcome::NotUnicode(d) => Err(AfsError::InvalidUnicode(d)),
        RawPathOutcome::Failed(source) => Err(
            AfsError::Canonicalize { path: normalized, source },
        ),
    }
}

} // verus!
