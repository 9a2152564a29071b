//! Streaming content hashing.
//!
//! A file's bytes are streamed in fixed-size chunks through a cryptographic
//! hash and the digest is rendered as lowercase hexadecimal. The digest is a
//! pure function of the byte stream: chunk boundaries do not matter, and no
//! path or timestamp enters it.
use vstd::prelude::*;

use crate::errors::{AfsError, AfsResult};
use crate::fsio::{open_read_raw, read_chunk_raw};
use crate::paths::normalize_spec;
use crate::realpath::get_filepath;
use crate::strutil::chars_to_string;

verus! {

/// The 32-byte SHA-256 digest of a byte sequence. What the bytes are is the
/// hash function's business; the library relies on the `sha2` crate for it
/// and states only that it depends on the input alone.
pub uninterp spec fn sha256_of(data: Seq<u8>) -> Seq<u8>;

#[verifier::external_type_specification]
#[verifier::external_body]
pub struct ExSha256(sha2::Sha256);

/// Relies on sha2::Sha256::new (Digest::new): a fresh hasher over the empty
/// input.
#[verifier::external_body]
fn sha256_new_raw() -> (r: sha2::Sha256) {
    <sha2::Sha256 as sha2::Digest>::new()
}

/// An incremental SHA-256 computation: bytes go in chunk by chunk, one
/// digest comes out. The ghost `absorbed` tracks everything fed so far;
/// the digest depends on that sequence alone, not on how it was chunked.
pub struct Sha256Stream {
    inner: sha2::Sha256,
    absorbed: Ghost<Seq<u8>>,
}

impl Sha256Stream {
    /// The bytes this stream has absorbed so far.
    pub closed spec fn absorbed_bytes(&self) -> Seq<u8> {
        self.absorbed@
    }

    /// A fresh stream that has absorbed nothing.
    pub fn new() -> (r: Self)
        ensures
            r.absorbed_bytes() == Seq::<u8>::empty(),
    {
        Sha256Stream { inner: sha256_new_raw(), absorbed: Ghost(Seq::empty()) }
    }

    /// Relies on sha2::Digest::update: feeding bytes incrementally hashes
    /// their concatenation.
    #[verifier::external_body]
    pub fn update(&mut self, chunk: &[u8])
        ensures
            final(self).absorbed_bytes() == old(self).absorbed_bytes() + chunk@,
    {
        sha2::Digest::update(&mut self.inner, chunk);
    }

    /// Relies on sha2::Digest::finalize: the digest of everything absorbed,
    /// always exactly 32 bytes for this hash.
    #[verifier::external_body]
    pub fn finalize(self) -> (r: Vec<u8>)
        ensures
            r@ == sha256_of(self.absorbed_bytes()),
            r@.len() == 32,
    {
        sha2::Digest::finalize(self.inner).to_vec()
    }
}

/// The lowercase hexadecimal digit for a value below sixteen.
pub open spec fn hex_digit(n: int) -> char {
    if n == 0 {
        '0'
    } else if n == 1 {
        '1'
    } else if n == 2 {
        '2'
    } else if n == 3 {
        '3'
    } else if n == 4 {
        '4'
    } else if n == 5 {
        '5'
    } else if n == 6 {
        '6'
    } else if n == 7 {
        '7'
    } else if n == 8 {
        '8'
    } else if n == 9 {
        '9'
    } else if n == 10 {
        'a'
    } else if n == 11 {
        'b'
    } else if n == 12 {
        'c'
    } else if n == 13 {
        'd'
    } else if n == 14 {
        'e'
    } else {
        'f'
    }
}

/// The lowercase hexadecimal rendering of a byte sequence: two digits per
/// byte, high nibble first, no separators.
pub open spec fn hex_of(data: Seq<u8>) -> Seq<char>
    decreases data.len(),
{
    if data.len() == 0 {
        Seq::empty()
    } else {
        hex_of(data.drop_last()) + seq![
            hex_digit(data.last() as int / 16),
            hex_digit(data.last() as int % 16),
        ]
    }
}

/// The full content digest as text: SHA-256 of the bytes, rendered as
/// lowercase hexadecimal.
pub open spec fn digest_of(data: Seq<u8>) -> Seq<char> {
    hex_of(sha256_of(data))
}

/// `c` is a lowercase hexadecimal digit.
pub open spec fn is_lower_hex_char(c: char) -> bool {
    ('0' <= c && c <= '9') || ('a' <= c && c <= 'f')
}

/// A hex rendering is twice as long as its input and holds nothing but
/// lowercase hexadecimal digits.
pub proof fn lemma_hex_of_shape(data: Seq<u8>)
    ensures
        hex_of(data).len() == 2 * data.len(),
        forall|i: int| 0 <= i < hex_of(data).len() ==> is_lower_hex_char(#[trigger] hex_of(data)[i]),
    decreases data.len(),
{
    if data.len() > 0 {
        lemma_hex_of_shape(data.drop_last());
    }
}

/// The digest is a function of the bytes alone: equal contents give equal
/// digests, whatever paths they were read from and however the stream was
/// chunked on the way in.
pub proof fn lemma_digest_deterministic(c1: Seq<u8>, c2: Seq<u8>)
    requires
        c1 == c2,
    ensures
        digest_of(c1) == digest_of(c2),
{
}

fn hex_digit_exec(n: u8) -> (r: char)
    requires
        n < 16,
    ensures
        r == hex_digit(n as int),
{
    match n {
        0 => '0',
        1 => '1',
        2 => '2',
        3 => '3',
        4 => '4',
        5 => '5',
        6 => '6',
        7 => '7',
        8 => '8',
        9 => '9',
        10 => 'a',
        11 => 'b',
        12 => 'c',
        13 => 'd',
        14 => 'e',
        _ => 'f',
    }
}

/// Renders `data` as lowercase hexadecimal, two digits per byte.
pub fn to_hex_lower(data: &Vec<u8>) -> (r: String)
    ensures
        r@ == hex_of(data@),
{
    let n = data.len();
    let mut out: Vec<char> = Vec::new();
    for i in 0..n
        invariant
            n == data@.len(),
            out@ == hex_of(data@.take(i as int)),
    {
        let ghost prefix = data@.take(i as int);
        proof {
            assert(data@.take(i + 1).drop_last() =~= prefix);
            assert(data@.take(i + 1).last() == data@[i as int]);
        }
        let b = data[i];
        out.push(hex_digit_exec(b / 16));
        out.push(hex_digit_exec(b % 16));
        proof {
            assert(out@ =~= hex_of(prefix) + seq![
                hex_digit(data@[i as int] as int / 16),
                hex_digit(data@[i as int] as int % 16),
            ]);
        }
    }
    proof {
        assert(data@.take(n as int) =~= data@);
    }
    chars_to_string(&out)
}

/// The content digest of a byte vector: SHA-256, rendered lowercase.
pub fn hash_bytes(data: &Vec<u8>) -> (r: String)
    ensures
        r@ == digest_of(data@),
        r@.len() == 64,
        forall|i: int| 0 <= i < r@.len() ==> is_lower_hex_char(#[trigger] r@[i]),
{
    let mut stream = Sha256Stream::new();
    stream.update(data.as_slice());
    proof {
        assert(Seq::<u8>::empty() + data@ =~= data@);
    }
    let digest = stream.finalize();
    proof {
        lemma_hex_of_shape(digest@);
    }
    to_hex_lower(&digest)
}

/// The content digest of the file named by `filepath`: the path is
/// canonicalized (so the file must exist), its bytes are streamed through
/// SHA-256 in chunks of at most 8 KiB, and the digest is returned as 64
/// lowercase hexadecimal characters.
///
/// Fails with the canonicalization error when the path cannot be resolved,
/// with `EmptyPath` when the resolved path is empty, and with `ReadFile`
/// when opening or reading fails; a failure mid-stream yields no digest.
/// The stream is bounded by an astronomically large chunk budget no real
/// file can exhaust, which makes termination provable.
pub fn hash_sync(filepath: &str) -> (r: AfsResult<String>)
    ensures
        match r {
            Ok(h) => h@.len() == 64 && forall|i: int|
                0 <= i < h@.len() ==> is_lower_hex_char(#[trigger] h@[i]),
            Err(e) => match e {
                AfsError::ReadFile { path: _, source: _ } => true,
                AfsError::Canonicalize { path: p, source } => p@ == normalize_spec(filepath@),
                AfsError::InvalidUnicode(_) => true,
                AfsError::EmptyPath => true,
                _ => false,
            },
        },
{
    let path = match get_filepath(filepath) {
        Ok(p) => p,
        Err(e) => {
            return Err(e);
        },
    };
    if path.as_str().unicode_len() == 0 {
        return Err(AfsError::EmptyPath);
    }
    let mut file = match open_read_raw(path.as_str()) {
        Ok(f) => f,
        Err(source) => {
            return Err(AfsError::ReadFile { path, source });
        },
    };
    let mut stream = Sha256Stream::new();
    let mut done = false;
    let mut budget: u64 = u64::MAX;
    while !done && budget > 0
        invariant
            true,
        decreases budget,
    {
        budget = budget - 1;
        match read_chunk_raw(&mut file) {
            Ok(chunk) => {
                if chunk.len() == 0 {
                    done = true;
                } else {
                    stream.update(chunk.as_slice());
                }
            },
            Err(source) => {
                return Err(AfsError::ReadFile { path, source });
            },
        }
    }
    if !done {
        return Err(
            AfsError::ReadFile {
                path,
                source: "stream exhausted the chunk budget".to_owned(),
            },
        );
    }
    let digest = stream.finalize();
    proof {
        lemma_hex_of_shape(digest@);
    }
    Ok(to_hex_lower(&digest))
}

} // verus!
