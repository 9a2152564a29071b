//! Permission modes: parsing octal mode strings and reducing a mode to the
//! one distinction every platform honors.
//!
//! A mode string such as `"755"` is a bitmask in octal notation. On the
//! platform family without POSIX-style permission bits only the read-only /
//! writable distinction exists, so the two platforms are not semantically
//! identical for permission changes: the reduction made there is
//! [`readonly_flag_for_mode`], stated here rather than hidden in a branch.
use vstd::prelude::*;

use crate::errors::{AfsError, AfsResult};

verus! {

/// `c` is an octal digit.
pub open spec fn is_octal_digit(c: char) -> bool {
    '0' <= c && c <= '7'
}

/// The numeric value of a digit string read in base eight.
pub open spec fn octal_val(s: Seq<char>) -> int
    decreases s.len(),
{
    if s.len() == 0 {
        0
    } else {
        octal_val(s.drop_last()) * 8 + (s.last() as int - '0' as int)
    }
}

/// A string of octal digits has a non-negative value.
pub proof fn lemma_octal_val_nonneg(s: Seq<char>)
    requires
        forall|i: int| 0 <= i < s.len() ==> is_octal_digit(#[trigger] s[i]),
    ensures
        octal_val(s) >= 0,
    decreases s.len(),
{
    if s.len() > 0 {
        lemma_octal_val_nonneg(s.drop_last());
    }
}

/// Reading more octal digits never shrinks the value: the value of a prefix
/// bounds the value of the whole.
pub proof fn lemma_octal_val_prefix(s: Seq<char>, i: int)
    requires
        0 <= i <= s.len(),
        forall|j: int| 0 <= j < s.len() ==> is_octal_digit(#[trigger] s[j]),
    ensures
        octal_val(s.take(i)) <= octal_val(s),
    decreases s.len(),
{
    if i < s.len() {
        let shorter = s.drop_last();
        assert(shorter.take(i) =~= s.take(i));
        lemma_octal_val_prefix(shorter, i);
        lemma_octal_val_nonneg(shorter);
        assert(octal_val(s) == octal_val(shorter) * 8 + (s.last() as int - '0' as int));
    } else {
        assert(s.take(i) =~= s);
    }
}

/// Parses `mode` as an octal bitmask.
///
/// Succeeds exactly when `mode` is one or more octal digits whose value
/// fits the bitmask type; every other input — empty, a stray character, or
/// a value too large — fails with `InvalidMode` carrying the string.
pub fn parse_octal_mode(mode: &str) -> (r: AfsResult<u32>)
    ensures
        match r {
            Ok(v) => mode@.len() > 0 && (forall|i: int|
                0 <= i < mode@.len() ==> is_octal_digit(#[trigger] mode@[i])) && v as int
                == octal_val(mode@),
            Err(e) => match e {
                AfsError::InvalidMode(m) => m@ == mode@ && (mode@.len() == 0 || (exists|i: int|
                    0 <= i < mode@.len() && !is_octal_digit(#[trigger] mode@[i])) || octal_val(
                    mode@,
                ) > u32::MAX),
                _ => false,
            },
        },
{
    let n = mode.unicode_len();
    if n == 0 {
        return Err(AfsError::InvalidMode(mode.to_owned()));
    }
    let mut acc: u64 = 0;
    for i in 0..n
        invariant
            n == mode@.len(),
            forall|j: int| 0 <= j < i ==> is_octal_digit(#[trigger] mode@[j]),
            acc <= u32::MAX,
            acc as int == octal_val(mode@.take(i as int)),
    {
        let ghost prefix = mode@.take(i as int);
        proof {
            assert(mode@.take(i + 1).drop_last() =~= prefix);
            assert(mode@.take(i + 1).last() == mode@[i as int]);
        }
        let c = mode.get_char(i);
        if !('0' <= c && c <= '7') {
            return Err(AfsError::InvalidMode(mode.to_owned()));
        }
        let d: u64 = (c as u32 as u64) - ('0' as u32 as u64);
        acc = acc * 8 + d;
        if acc > u32::MAX as u64 {
            proof {
                if forall|j: int| 0 <= j < mode@.len() ==> is_octal_digit(#[trigger] mode@[j]) {
                    lemma_octal_val_prefix(mode@, i + 1);
                }
            }
            return Err(AfsError::InvalidMode(mode.to_owned()));
        }
    }
    proof {
        assert(mode@.take(n as int) =~= mode@);
    }
    Ok(acc as u32)
}

/// Reduces a permission bitmask to the read-only flag, for the platform
/// family that honors only that distinction: a mode with none of the read
/// bits (`0o444`) set makes the target writable, any other mode makes it
/// read-only. This is a deliberate, documented divergence from the
/// platforms with full permission bits, not an equivalent of them.
pub fn readonly_flag_for_mode(mode_val: u32) -> (r: bool)
    ensures
        r == (mode_val & 0o444 != 0),
{
    mode_val & 0o444 != 0
}

} // verus!
