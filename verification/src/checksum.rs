//! Digest algorithms, expected checksums and the streaming verifier.

use vstd::prelude::*;

verus! {

/// The digest algorithms a checksum may name.
#[derive(Clone, Copy, Debug, PartialEq, Eq, Structural)]
pub enum Algorithm {
    Sha1,
    Sha256,
    Md5,
}

/// An expected digest: the algorithm and the lowercase hex string the
/// computed digest has to equal, character for character.
#[derive(Debug, PartialEq, Eq)]
pub enum Checksum {
    Sha1(String),
    Sha256(String),
    Md5(String),
}

/// Mathematical content of a [`Checksum`].
pub struct ChecksumView {
    pub algorithm: Algorithm,
    pub expected: Seq<char>,
}

impl View for Checksum {
    type V = ChecksumView;

    open spec fn view(&self) -> ChecksumView {
        match self {
            Checksum::Sha1(hex) => ChecksumView { algorithm: Algorithm::Sha1, expected: hex@ },
            Checksum::Sha256(hex) => ChecksumView { algorithm: Algorithm::Sha256, expected: hex@ },
            Checksum::Md5(hex) => ChecksumView { algorithm: Algorithm::Md5, expected: hex@ },
        }
    }
}

impl Clone for Checksum {
    fn clone(&self) -> (copy: Self)
        ensures
            copy@ == self@,
    {
        match self {
            Checksum::Sha1(hex) => Checksum::Sha1(hex.clone()),
            Checksum::Sha256(hex) => Checksum::Sha256(hex.clone()),
            Checksum::Md5(hex) => Checksum::Md5(hex.clone()),
        }
    }
}

/// The character `hex::encode` writes for a four-bit value.
pub open spec fn hex_digit(nibble: int) -> char {
    seq!['0', '1', '2', '3', '4', '5', '6', '7', '8', '9', 'a', 'b', 'c', 'd', 'e', 'f'][nibble]
}

/// Lowercase hexadecimal text of a byte string: two characters per byte, the
/// high four bits first.
pub open spec fn hex_lower(data: Seq<u8>) -> Seq<char> {
    Seq::new(
        2 * data.len(),
        |i: int|
            if i % 2 == 0 {
                hex_digit(data[i / 2] as int / 16)
            } else {
                hex_digit(data[i / 2] as int % 16)
            },
    )
}

/// SHA-1 digest of a byte string, as the `sha1` crate computes it.
pub uninterp spec fn sha1_digest(data: Seq<u8>) -> Seq<u8>;

/// SHA-256 digest of a byte string, as the `sha2` crate computes it.
pub uninterp spec fn sha256_digest(data: Seq<u8>) -> Seq<u8>;

/// MD5 digest of a byte string, as the `md-5` crate computes it.
pub uninterp spec fn md5_digest(data: Seq<u8>) -> Seq<u8>;

/// Running state of a `sha1::Sha1` hasher.
#[verifier::external_body]
pub struct Sha1Stream {
    inner: sha1::Sha1,
}

/// Running state of a `sha2::Sha256` hasher.
#[verifier::external_body]
pub struct Sha256Stream {
    inner: sha2::Sha256,
}

/// Running state of an `md5::Md5` hasher.
#[verifier::external_body]
pub struct Md5Stream {
    inner: md5::Md5,
}

/// Every byte fed to a SHA-1 hasher so far, in order.
pub uninterp spec fn sha1_fed(stream: Sha1Stream) -> Seq<u8>;

/// Every byte fed to a SHA-256 hasher so far, in order.
pub uninterp spec fn sha256_fed(stream: Sha256Stream) -> Seq<u8>;

/// Every byte fed to an MD5 hasher so far, in order.
pub uninterp spec fn md5_fed(stream: Md5Stream) -> Seq<u8>;

/// `sha1::Digest::new` for `Sha1`: a hasher that has been fed nothing.
#[verifier::external_body]
fn sha1_begin() -> (stream: Sha1Stream)
    ensures
        sha1_fed(stream) == Seq::<u8>::empty(),
{
    Sha1Stream { inner: sha1::Digest::new() }
}

/// `sha1::Digest::update` for `Sha1`: appends `data` to what was fed; how the
/// input is cut into calls does not matter.
#[verifier::external_body]
fn sha1_update(stream: &mut Sha1Stream, data: &[u8])
    ensures
        sha1_fed(*final(stream)) == sha1_fed(*old(stream)) + data@,
{
    sha1::Digest::update(&mut stream.inner, data)
}

/// `sha1::Digest::finalize` for `Sha1`: the SHA-1 digest of everything fed.
#[verifier::external_body]
fn sha1_finish(stream: Sha1Stream) -> (digest: Vec<u8>)
    ensures
        digest@ == sha1_digest(sha1_fed(stream)),
{
    sha1::Digest::finalize(stream.inner).to_vec()
}

/// `sha2::Digest::new` for `Sha256`: a hasher that has been fed nothing.
#[verifier::external_body]
fn sha256_begin() -> (stream: Sha256Stream)
    ensures
        sha256_fed(stream) == Seq::<u8>::empty(),
{
    Sha256Stream { inner: sha2::Digest::new() }
}

/// `sha2::Digest::update` for `Sha256`: appends `data` to what was fed.
#[verifier::external_body]
fn sha256_update(stream: &mut Sha256Stream, data: &[u8])
    ensures
        sha256_fed(*final(stream)) == sha256_fed(*old(stream)) + data@,
{
    sha2::Digest::update(&mut stream.inner, data)
}

/// `sha2::Digest::finalize` for `Sha256`: the SHA-256 digest of everything fed.
#[verifier::external_body]
fn sha256_finish(stream: Sha256Stream) -> (digest: Vec<u8>)
    ensures
        digest@ == sha256_digest(sha256_fed(stream)),
{
    sha2::Digest::finalize(stream.inner).to_vec()
}

/// `md5::Digest::new` for `Md5`: a hasher that has been fed nothing.
#[verifier::external_body]
fn md5_begin() -> (stream: Md5Stream)
    ensures
        md5_fed(stream) == Seq::<u8>::empty(),
{
    Md5Stream { inner: md5::Digest::new() }
}

/// `md5::Digest::update` for `Md5`: appends `data` to what was fed.
#[verifier::external_body]
fn md5_update(stream: &mut Md5Stream, data: &[u8])
    ensures
        md5_fed(*final(stream)) == md5_fed(*old(stream)) + data@,
{
    md5::Digest::update(&mut stream.inner, data)
}

/// `md5::Digest::finalize` for `Md5`: the MD5 digest of everything fed.
#[verifier::external_body]
fn md5_finish(stream: Md5Stream) -> (digest: Vec<u8>)
    ensures
        digest@ == md5_digest(md5_fed(stream)),
{
    md5::Digest::finalize(stream.inner).to_vec()
}

/// `hex::encode`: two lowercase hex characters per byte, high nibble first.
#[verifier::external_body]
fn hex_encode(data: &[u8]) -> (text: String)
    ensures
        text@ == hex_lower(data@),
{
    hex::encode(data)
}

/// Digest of `data` under `algorithm`.
pub open spec fn digest_of(algorithm: Algorithm, data: Seq<u8>) -> Seq<u8> {
    match algorithm {
        Algorithm::Sha1 => sha1_digest(data),
        Algorithm::Sha256 => sha256_digest(data),
        Algorithm::Md5 => md5_digest(data),
    }
}

/// Lowercase hex text of the digest of `data` under `algorithm`.
pub open spec fn hex_digest(algorithm: Algorithm, data: Seq<u8>) -> Seq<char> {
    hex_lower(digest_of(algorithm, data))
}

enum DigestState {
    Sha1(Sha1Stream),
    Sha256(Sha256Stream),
    Md5(Md5Stream),
}

/// A digest accumulator for one stream of bytes under one algorithm.
pub struct StreamingDigest {
    state: DigestState,
}

impl StreamingDigest {
    /// The algorithm chosen when the accumulator was made.
    pub closed spec fn algorithm(&self) -> Algorithm {
        match self.state {
            DigestState::Sha1(_) => Algorithm::Sha1,
            DigestState::Sha256(_) => Algorithm::Sha256,
            DigestState::Md5(_) => Algorithm::Md5,
        }
    }

    /// All bytes accumulated so far, in order.
    pub closed spec fn fed(&self) -> Seq<u8> {
        match self.state {
            DigestState::Sha1(stream) => sha1_fed(stream),
            DigestState::Sha256(stream) => sha256_fed(stream),
            DigestState::Md5(stream) => md5_fed(stream),
        }
    }

    /// An accumulator for `algorithm` that has seen no bytes.
    pub fn new(algorithm: Algorithm) -> (digest: Self)
        ensures
            digest.algorithm() == algorithm,
            digest.fed() == Seq::<u8>::empty(),
    {
        let state = match algorithm {
            Algorithm::Sha1 => DigestState::Sha1(sha1_begin()),
            Algorithm::Sha256 => DigestState::Sha256(sha256_begin()),
            Algorithm::Md5 => DigestState::Md5(md5_begin()),
        };
        StreamingDigest { state }
    }

    /// Accumulates one more chunk.
    pub fn update(&mut self, data: &[u8])
        ensures
            final(self).algorithm() == old(self).algorithm(),
            final(self).fed() == old(self).fed() + data@,
    {
        match &mut self.state {
            DigestState::Sha1(stream) => sha1_update(stream, data),
            DigestState::Sha256(stream) => sha256_update(stream, data),
            DigestState::Md5(stream) => md5_update(stream, data),
        }
    }

    /// Ends the stream and returns the digest as lowercase hex.
    pub fn finalize(self) -> (text: String)
        ensures
            text@ == hex_digest(self.algorithm(), self.fed()),
    {
        let digest = match self.state {
            DigestState::Sha1(stream) => sha1_finish(stream),
            DigestState::Sha256(stream) => sha256_finish(stream),
            DigestState::Md5(stream) => md5_finish(stream),
        };
        hex_encode(digest.as_slice())
    }
}

/// Lowercase hex digest of a whole byte string.
pub fn digest_hex(algorithm: Algorithm, data: &[u8]) -> (text: String)
    ensures
        text@ == hex_digest(algorithm, data@),
{
    let mut digest = StreamingDigest::new(algorithm);
    digest.update(data);
    digest.finalize()
}

impl Checksum {
    /// The algorithm this checksum names.
    pub fn algorithm(&self) -> (algorithm: Algorithm)
        ensures
            algorithm == self@.algorithm,
    {
        match self {
            Checksum::Sha1(_) => Algorithm::Sha1,
            Checksum::Sha256(_) => Algorithm::Sha256,
            Checksum::Md5(_) => Algorithm::Md5,
        }
    }

    /// The expected digest text.
    pub fn expected(&self) -> (hex: &String)
        ensures
            hex@ == self@.expected,
    {
        match self {
            Checksum::Sha1(hex) => hex,
            Checksum::Sha256(hex) => hex,
            Checksum::Md5(hex) => hex,
        }
    }

    /// Whether a computed digest text is exactly the expected one. The
    /// comparison is by characters: an expected digest written in upper case
    /// never matches.
    pub fn matches_hex(&self, actual: &String) -> (same: bool)
        ensures
            same == (self@.expected == actual@),
    {
        *self.expected() == *actual
    }

    /// Hashes `content` with the named algorithm and compares.
    pub fn verify(&self, content: &[u8]) -> (same: bool)
        ensures
            same == (self@.expected == hex_digest(self@.algorithm, content@)),
    {
        let actual = digest_hex(self.algorithm(), content);
        self.matches_hex(&actual)
    }
}

} // verus!
