//! Streaming checksums of image files.
//!
//! A checksum is computed by feeding a file to a digest block by block and
//! rendering the digest in lowercase hexadecimal. The digests themselves
//! are computed by the `sha2` and `md-5` crates.

use vstd::prelude::*;
use sha2::Digest;
use crate::text::push_char;

verus! {

/// Number of bytes read from the file per block.
pub const BUFFER_SIZE: usize = 8_388_608;

/// The supported digest algorithms.
#[derive(Debug, Clone, Copy, PartialEq, Eq, Structural)]
pub enum Algorithm {
    Sha256,
    Md5,
}

/// The lowercase form of a text: what `str::to_lowercase` makes of it.
pub uninterp spec fn lowercase(s: Seq<char>) -> Seq<char>;

/// The lowercase form of `s`.
///
/// Trusted: the result of `str::to_lowercase`, which depends on the
/// characters of `s` alone.
#[verifier::external_body]
fn to_lowercase(s: &str) -> (lower: String)
    ensures
        lower@ == lowercase(s@),
{
    s.to_lowercase()
}

/// Text of the failure for a selector that names no supported algorithm.
pub open spec fn unsupported_text(selector: Seq<char>) -> Seq<char> {
    "Unsupported algorithm: "@ + selector
}

/// The algorithm selected by a selector whose lowercase form is `lower`.
pub open spec fn selected(lower: Seq<char>) -> Option<Algorithm> {
    if lower == "sha256"@ {
        Some(Algorithm::Sha256)
    } else if lower == "md5"@ {
        Some(Algorithm::Md5)
    } else {
        None
    }
}

impl Algorithm {
    /// Picks the algorithm for the selector `given` whose lowercase form is
    /// `lower`; a selector that names neither algorithm is refused with a
    /// message quoting it as given.
    pub fn from_lowercase(lower: &str, given: &str) -> (r: Result<Algorithm, String>)
        ensures
            match r {
                Ok(a) => selected(lower@) == Some(a),
                Err(m) => selected(lower@) is None && m@ == unsupported_text(given@),
            },
    {
        let lower = lower.to_owned();
        if lower == String::from_str("sha256") {
            Ok(Algorithm::Sha256)
        } else if lower == String::from_str("md5") {
            Ok(Algorithm::Md5)
        } else {
            Err(String::from_str("Unsupported algorithm: ").concat(given))
        }
    }

    /// Picks the algorithm named by `selector`, letter case aside. The
    /// selector is judged on its own: no file is touched.
    pub fn parse(selector: &str) -> (r: Result<Algorithm, String>)
        ensures
            match r {
                Ok(a) => selected(lowercase(selector@)) == Some(a),
                Err(m) => selected(lowercase(selector@)) is None && m@ == unsupported_text(
                    selector@,
                ),
            },
    {
        let lower = to_lowercase(selector);
        Algorithm::from_lowercase(lower.as_str(), selector)
    }
}

/// A running SHA-256 computation: the hasher `sha2::Sha256`, kept whole
/// and private. What it has been fed is [`sha256_absorbed`].
#[verifier::external_body]
pub struct Sha256State {
    inner: sha2::Sha256,
}

/// A running MD5 computation: the hasher `md5::Md5` of the `md-5` crate,
/// kept whole and private. What it has been fed is [`md5_absorbed`].
#[verifier::external_body]
pub struct Md5State {
    inner: md5::Md5,
}

/// The bytes fed to a SHA-256 computation so far, in order.
pub uninterp spec fn sha256_absorbed(state: Sha256State) -> Seq<u8>;

/// The bytes fed to an MD5 computation so far, in order.
pub uninterp spec fn md5_absorbed(state: Md5State) -> Seq<u8>;

/// The SHA-256 digest of a byte sequence.
pub uninterp spec fn sha256_digest(data: Seq<u8>) -> Seq<u8>;

/// The MD5 digest of a byte sequence.
pub uninterp spec fn md5_digest(data: Seq<u8>) -> Seq<u8>;

/// A SHA-256 computation that has been fed nothing.
///
/// Trusted: `Sha256::new` from `sha2` starts from the empty message.
#[verifier::external_body]
fn sha256_new() -> (state: Sha256State)
    ensures
        sha256_absorbed(state) == Seq::<u8>::empty(),
{
    Sha256State { inner: sha2::Sha256::new() }
}

/// Feeds `data` to the computation.
///
/// Trusted: `Digest::update` appends `data` to the message digested.
#[verifier::external_body]
fn sha256_update(state: &mut Sha256State, data: &[u8])
    ensures
        sha256_absorbed(*final(state)) == sha256_absorbed(*old(state)) + data@,
{
    state.inner.update(data)
}

/// Ends the computation.
///
/// Trusted: `Digest::finalize` yields the SHA-256 digest of everything
/// that was fed, a function of those bytes alone.
#[verifier::external_body]
fn sha256_finalize(state: Sha256State) -> (digest: Vec<u8>)
    ensures
        digest@ == sha256_digest(sha256_absorbed(state)),
{
    state.inner.finalize().to_vec()
}

/// An MD5 computation that has been fed nothing.
///
/// Trusted: `Md5::new` from `md-5` starts from the empty message.
#[verifier::external_body]
fn md5_new() -> (state: Md5State)
    ensures
        md5_absorbed(state) == Seq::<u8>::empty(),
{
    Md5State { inner: md5::Md5::new() }
}

/// Feeds `data` to the computation.
///
/// Trusted: `Digest::update` appends `data` to the message digested.
#[verifier::external_body]
fn md5_update(state: &mut Md5State, data: &[u8])
    ensures
        md5_absorbed(*final(state)) == md5_absorbed(*old(state)) + data@,
{
    state.inner.update(data)
}

/// Ends the computation.
///
/// Trusted: `Digest::finalize` yields the MD5 digest of everything that
/// was fed, a function of those bytes alone.
#[verifier::external_body]
fn md5_finalize(state: Md5State) -> (digest: Vec<u8>)
    ensures
        digest@ == md5_digest(md5_absorbed(state)),
{
    state.inner.finalize().to_vec()
}

/// The lowercase hexadecimal digit for `n`.
pub open spec fn hex_digit(n: nat) -> char
    recommends
        n < 16,
{
    if n < 10 {
        crate::text::digit_char(n)
    } else if n == 10 {
        'a'
    } else if n == 11 {
        'b'
    } else if n == 12 {
        'c'
    } else if n == 13 {
        'd'
    } else if n == 14 {
        'e'
    } else {
        'f'
    }
}

/// The bytes written as two lowercase hexadecimal digits each, high digit
/// first.
pub open spec fn hex_text(bytes: Seq<u8>) -> Seq<char>
    decreases bytes.len(),
{
    if bytes.len() == 0 {
        Seq::<char>::empty()
    } else {
        hex_text(bytes.drop_last()) + seq![
            hex_digit(bytes.last() as nat / 16),
            hex_digit(bytes.last() as nat % 16),
        ]
    }
}

fn hex_digit_of(n: u8) -> (c: char)
    requires
        n < 16,
    ensures
        c == hex_digit(n as nat),
{
    if n < 10 {
        crate::text::digit_to_char(n)
    } else if n == 10 {
        'a'
    } else if n == 11 {
        'b'
    } else if n == 12 {
        'c'
    } else if n == 13 {
        'd'
    } else if n == 14 {
        'e'
    } else {
        'f'
    }
}

/// Writes `bytes` in lowercase hexadecimal.
pub fn to_hex(bytes: &[u8]) -> (s: String)
    ensures
        s@ == hex_text(bytes@),
{
    let mut s = String::new();
    let mut i: usize = 0;
    while i < bytes.len()
        invariant
            i <= bytes@.len(),
            s@ == hex_text(bytes@.take(i as int)),
        decreases bytes@.len() - i,
    {
        let b = bytes[i];
        push_char(&mut s, hex_digit_of(b / 16));
        push_char(&mut s, hex_digit_of(b % 16));
        i += 1;
        proof {
            assert(bytes@.take(i as int).drop_last() =~= bytes@.take(i - 1));
        }
    }
    assert(bytes@.take(i as int) =~= bytes@);
    s
}

/// The digest of `data` under `algorithm`.
pub open spec fn digest_of(algorithm: Algorithm, data: Seq<u8>) -> Seq<u8> {
    match algorithm {
        Algorithm::Sha256 => sha256_digest(data),
        Algorithm::Md5 => md5_digest(data),
    }
}

/// The checksum of `data` under `algorithm` as it is shown.
pub open spec fn checksum_text(algorithm: Algorithm, data: Seq<u8>) -> Seq<char> {
    hex_text(digest_of(algorithm, data))
}

/// A checksum in the making: bytes go in block by block, the hexadecimal
/// digest comes out at the end.
pub enum ChecksumStream {
    Sha256(Sha256State),
    Md5(Md5State),
}

impl ChecksumStream {
    /// The algorithm of the stream.
    pub open spec fn algorithm(self) -> Algorithm {
        match self {
            ChecksumStream::Sha256(_) => Algorithm::Sha256,
            ChecksumStream::Md5(_) => Algorithm::Md5,
        }
    }

    /// Everything fed to the stream so far, in order.
    pub open spec fn absorbed(self) -> Seq<u8> {
        match self {
            ChecksumStream::Sha256(state) => sha256_absorbed(state),
            ChecksumStream::Md5(state) => md5_absorbed(state),
        }
    }

    /// A stream for `algorithm` that has been fed nothing.
    pub fn new(algorithm: Algorithm) -> (stream: ChecksumStream)
        ensures
            stream.algorithm() == algorithm,
            stream.absorbed() == Seq::<u8>::empty(),
    {
        match algorithm {
            Algorithm::Sha256 => ChecksumStream::Sha256(sha256_new()),
            Algorithm::Md5 => ChecksumStream::Md5(md5_new()),
        }
    }

    /// Feeds the next block of the file.
    pub fn update(&mut self, data: &[u8])
        ensures
            final(self).algorithm() == old(self).algorithm(),
            final(self).absorbed() == old(self).absorbed() + data@,
    {
        match self {
            ChecksumStream::Sha256(state) => sha256_update(state, data),
            ChecksumStream::Md5(state) => md5_update(state, data),
        }
    }

    /// The checksum of everything that was fed, in lowercase hexadecimal.
    pub fn finish(self) -> (hex: String)
        ensures
            hex@ == checksum_text(self.algorithm(), self.absorbed()),
    {
        let digest = match self {
            ChecksumStream::Sha256(state) => sha256_finalize(state),
            ChecksumStream::Md5(state) => md5_finalize(state),
        };
        to_hex(digest.as_slice())
    }
}

/// What a stream has absorbed after the blocks of `chunks` were fed to it
/// one after the other, starting from nothing.
pub open spec fn fed(chunks: Seq<Seq<u8>>) -> Seq<u8>
    decreases chunks.len(),
{
    if chunks.len() == 0 {
        Seq::<u8>::empty()
    } else {
        fed(chunks.drop_last()) + chunks.last()
    }
}

/// Feeding a file in blocks is feeding the file: cutting one block in two
/// at any point changes nothing of what was absorbed, so the checksum does
/// not depend on how the reads happened to split the file.
pub proof fn lemma_blocks_may_be_split(chunks: Seq<Seq<u8>>, i: int, at: int)
    requires
        0 <= i < chunks.len(),
        0 <= at <= chunks[i].len(),
    ensures
        fed(chunks.take(i).push(chunks[i].take(at)).push(chunks[i].skip(at)) + chunks.skip(i + 1))
            == fed(chunks),
    decreases chunks.len() - i,
{
    let split = chunks.take(i).push(chunks[i].take(at)).push(chunks[i].skip(at)) + chunks.skip(
        i + 1,
    );
    if i == chunks.len() - 1 {
        assert(split.drop_last().drop_last() =~= chunks.take(i));
        assert(fed(split) == fed(split.drop_last()) + chunks[i].skip(at));
    } else {
        let head = chunks.drop_last();
        lemma_blocks_may_be_split(head, i, at);
        let head_split = head.take(i).push(head[i].take(at)).push(head[i].skip(at)) + head.skip(
            i + 1,
        );
        assert(split.drop_last() =~= head_split);
    }
}

/// The same bytes under the same algorithm give the same checksum: two
/// streams that absorbed equal byte sequences end in equal texts.
pub proof fn lemma_same_bytes_same_checksum(a: ChecksumStream, b: ChecksumStream)
    requires
        a.algorithm() == b.algorithm(),
        a.absorbed() == b.absorbed(),
    ensures
        checksum_text(a.algorithm(), a.absorbed()) == checksum_text(b.algorithm(), b.absorbed()),
{
}

} // verus!
