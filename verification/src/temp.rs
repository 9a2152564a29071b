//! Temporary directories and files.
//!
//! A temporary file's name is the clock time encoded in a 62-character
//! alphabet with the caller's extension appended; the encoding itself is
//! pure and exactly specified, only the clock and the directory creation
//! are platform calls.
use vstd::prelude::*;

use crate::errors::{AfsError, AfsResult};
use crate::fsio::{create_raw, RawPathOutcome};
use crate::paths::{push_on, push_seg_exec};
use crate::strutil::{chars_to_string, str_to_chars};

verus! {

/// The alphabet used for generated file names: the ASCII letters, lower
/// case first, then the digits.
pub open spec fn name_char(d: int) -> char {
    let lower = seq!['a', 'b', 'c', 'd', 'e', 'f', 'g', 'h', 'i', 'j', 'k', 'l', 'm', 'n', 'o',
        'p', 'q', 'r', 's', 't', 'u', 'v', 'w', 'x', 'y', 'z'];
    let upper = seq!['A', 'B', 'C', 'D', 'E', 'F', 'G', 'H', 'I', 'J', 'K', 'L', 'M', 'N', 'O',
        'P', 'Q', 'R', 'S', 'T', 'U', 'V', 'W', 'X', 'Y', 'Z'];
    let digits = seq!['0', '1', '2', '3', '4', '5', '6', '7', '8', '9'];
    (lower + upper + digits)[d]
}

/// `n` written in base 62, least significant digit first; zero writes
/// nothing at all.
pub open spec fn base62_of(n: nat) -> Seq<char>
    decreases n,
{
    if n == 0 {
        Seq::empty()
    } else {
        seq![name_char((n % 62) as int)] + base62_of(n / 62)
    }
}

fn name_char_exec(d: u64) -> (r: char)
    requires
        d < 62,
    ensures
        r == name_char(d as int),
{
    let table: [char; 62] = ['a', 'b', 'c', 'd', 'e', 'f', 'g', 'h', 'i', 'j', 'k', 'l', 'm', 'n',
        'o', 'p', 'q', 'r', 's', 't', 'u', 'v', 'w', 'x', 'y', 'z', 'A', 'B', 'C', 'D', 'E', 'F',
        'G', 'H', 'I', 'J', 'K', 'L', 'M', 'N', 'O', 'P', 'Q', 'R', 'S', 'T', 'U', 'V', 'W', 'X',
        'Y', 'Z', '0', '1', '2', '3', '4', '5', '6', '7', '8', '9'];
    let c = table[d as usize];
    proof {
        assert(c == name_char(d as int));
    }
    c
}

/// Writes `num` in the 62-character alphabet, least significant digit
/// first, and appends `ext` verbatim.
pub fn encode_base62(num: u64, ext: &str) -> (r: String)
    ensures
        r@ == base62_of(num as nat) + ext@,
        r@.len() >= ext@.len(),
        r@.skip(r@.len() - ext@.len()) == ext@,
{
    let mut out: Vec<char> = Vec::new();
    let mut n = num;
    proof {
        assert(Seq::<char>::empty() + base62_of(num as nat) =~= base62_of(num as nat));
    }
    while n > 0
        invariant
            out@ + base62_of(n as nat) == base62_of(num as nat),
        decreases n,
    {
        let ghost out0 = out@;
        let d = n % 62;
        out.push(name_char_exec(d));
        proof {
            assert(base62_of(n as nat) == seq![name_char(d as int)] + base62_of(n as nat / 62));
            assert(out@ =~= out0.push(name_char(d as int)));
            assert(out@ + base62_of(n as nat / 62) =~= out0 + base62_of(n as nat));
        }
        n = n / 62;
    }
    proof {
        assert(out@ + base62_of(0nat) =~= out@);
    }
    let prefix = chars_to_string(&out);
    let r = prefix.concat(ext);
    proof {
        assert(r@.skip(r@.len() - ext@.len()) =~= ext@);
    }
    r
}

/// Relies on std::time::SystemTime::now and duration_since: the seconds of
/// the system clock past the epoch, zero when the clock reads earlier than
/// that. Nothing is promised of the value: it is whatever the clock says.
#[verifier::external_body]
fn now_unix_secs_raw() -> (r: u64) {
    std::time::SystemTime::now()
        .duration_since(std::time::UNIX_EPOCH)
        .map(|d| d.as_secs())
        .unwrap_or(0)
}

/// A file name derived from the clock: the current time in the
/// 62-character alphabet, with `ext` appended verbatim, so the name always
/// ends in `ext`.
pub fn random_file_name(ext: &str) -> (r: String)
    ensures
        r@.len() >= ext@.len(),
        r@.skip(r@.len() - ext@.len()) == ext@,
{
    let secs = now_unix_secs_raw();
    encode_base62(secs, ext)
}

/// Relies on tempfile::TempDir::new and TempDir::keep: creates a fresh
/// temporary directory, disowns its automatic cleanup, and returns its
/// path.
#[verifier::external_body]
fn tempdir_keep_raw() -> (r: RawPathOutcome) {
    match tempfile::TempDir::new() {
        Ok(d) => {
            let pb = d.keep();
            match pb.to_str() {
                Some(s) => RawPathOutcome::Path(s.to_string()),
                None => RawPathOutcome::NotUnicode(pb.display().to_string()),
            }
        },
        Err(e) => RawPathOutcome::Failed(e.to_string()),
    }
}

/// Creates a fresh temporary directory and returns its path. The directory
/// is not removed automatically; the caller owns it.
///
/// Fails with `TempDir` when the platform cannot create one, and with
/// `InvalidUnicode` when its path is not representable as text.
pub fn create_tempdir() -> (r: AfsResult<String>)
    ensures
        match r {
            Ok(_) => true,
            Err(e) => match e {
                AfsError::TempDir(_) => true,
                AfsError::InvalidUnicode(_) => true,
                _ => false,
            },
        },
{
    match tempdir_keep_raw() {
        RawPathOutcome::Path(s) => Ok(s),
        RawPathOutcome::NotUnicode(d) => Err(AfsError::InvalidUnicode(d)),
        RawPathOutcome::Failed(m) => Err(AfsError::TempDir(m)),
    }
}

/// Creates an empty file with a clock-derived name ending in `ext`, inside
/// a fresh temporary directory, and returns its path — which therefore
/// always ends in `ext`.
///
/// Fails as `create_tempdir` does when no directory can be made, and with
/// `CreateFile` when the file itself cannot be created.
pub fn create_tempfile(ext: &str) -> (r: AfsResult<String>)
    ensures
        match r {
            Ok(p) => p@.len() >= ext@.len() && p@.skip(p@.len() - ext@.len()) == ext@,
            Err(e) => match e {
                AfsError::TempDir(_) => true,
                AfsError::InvalidUnicode(_) => true,
                AfsError::CreateFile { path: _, source: _ } => true,
                _ => false,
            },
        },
{
    let dir = match create_tempdir() {
        Ok(d) => d,
        Err(e) => {
            return Err(e);
        },
    };
    let name = random_file_name(ext);
    let mut acc = str_to_chars(dir.as_str());
    let namev = str_to_chars(name.as_str());
    let ghost dirv = dir@;
    push_seg_exec(&mut acc, &namev);
    proof {
        let p = push_on(dirv, name@);
        assert(acc@ == p);
        if dirv.len() == 0 {
            assert(p.skip(p.len() - ext@.len()) =~= name@.skip(name@.len() - ext@.len()));
        } else if dirv.last() == '/' {
            assert(p.skip(p.len() - ext@.len()) =~= name@.skip(name@.len() - ext@.len()));
        } else {
            assert(p =~= (dirv + seq!['/']) + name@);
            assert(p.skip(p.len() - ext@.len()) =~= name@.skip(name@.len() - ext@.len()));
        }
    }
    let file_path = chars_to_string(&acc);
    match create_raw(file_path.as_str()) {
        Ok(_) => Ok(file_path),
        Err(source) => Err(AfsError::CreateFile { path: file_path, source }),
    }
}

} // verus!
