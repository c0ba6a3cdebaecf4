//! Hashing a text with SHA-3 and showing the digest in hex or base64.

use vstd::prelude::*;
use base64::Engine;
use sha3::Digest;

verus! {

/// How a digest is shown.
#[derive(Clone, Copy, Debug, PartialEq, Eq, Structural)]
pub enum HashPreviewOption {
    Base64,
    Hex,
}

/// The SHA-3 variant in use.
#[derive(Clone, Copy, Debug, PartialEq, Eq, Structural)]
pub enum HashAlgorythm {
    Sha3_224,
    Sha3_256,
    Sha3_384,
    Sha3_512,
}

/// The SHA3-224 digest of a text's UTF-8 bytes.
pub uninterp spec fn sha3_224_of(text: Seq<char>) -> Seq<u8>;

/// The SHA3-256 digest of a text's UTF-8 bytes.
pub uninterp spec fn sha3_256_of(text: Seq<char>) -> Seq<u8>;

/// The SHA3-384 digest of a text's UTF-8 bytes.
pub uninterp spec fn sha3_384_of(text: Seq<char>) -> Seq<u8>;

/// The SHA3-512 digest of a text's UTF-8 bytes.
pub uninterp spec fn sha3_512_of(text: Seq<char>) -> Seq<u8>;

/// Standard base64 of some bytes, without `=` padding.
pub uninterp spec fn base64_of(data: Seq<u8>) -> Seq<char>;

/// Relies on `sha3::Sha3_224` through `Digest::chain_update` and `finalize`: a
/// function of the bytes fed in, whose output size is 28 bytes.
#[verifier::external_body]
fn sha3_224(text: &str) -> (r: Vec<u8>)
    ensures
        r@ == sha3_224_of(text@),
        r@.len() == 28,
{
    sha3::Sha3_224::new().chain_update(text).finalize().to_vec()
}

/// Relies on `sha3::Sha3_256` through `Digest::chain_update` and `finalize`: a
/// function of the bytes fed in, whose output size is 32 bytes.
#[verifier::external_body]
fn sha3_256(text: &str) -> (r: Vec<u8>)
    ensures
        r@ == sha3_256_of(text@),
        r@.len() == 32,
{
    sha3::Sha3_256::new().chain_update(text).finalize().to_vec()
}

/// Relies on `sha3::Sha3_384` through `Digest::chain_update` and `finalize`: a
/// function of the bytes fed in, whose output size is 48 bytes.
#[verifier::external_body]
fn sha3_384(text: &str) -> (r: Vec<u8>)
    ensures
        r@ == sha3_384_of(text@),
        r@.len() == 48,
{
    sha3::Sha3_384::new().chain_update(text).finalize().to_vec()
}

/// Relies on `sha3::Sha3_512` through `Digest::chain_update` and `finalize`: a
/// function of the bytes fed in, whose output size is 64 bytes.
#[verifier::external_body]
fn sha3_512(text: &str) -> (r: Vec<u8>)
    ensures
        r@ == sha3_512_of(text@),
        r@.len() == 64,
{
    sha3::Sha3_512::new().chain_update(text).finalize().to_vec()
}

/// Relies on `base64::Engine::encode` of `general_purpose::STANDARD_NO_PAD`, a
/// function of the bytes alone. It panics only where the encoded length would
/// overflow `usize`, which the bound leaves out.
#[verifier::external_body]
fn base64_no_pad(data: &Vec<u8>) -> (r: String)
    requires
        data@.len() <= usize::MAX / 2,
    ensures
        r@ == base64_of(data@),
{
    base64::engine::general_purpose::STANDARD_NO_PAD.encode(data)
}

/// A lower-case hexadecimal digit.
pub open spec fn hex_digit(d: int) -> char {
    seq!['0', '1', '2', '3', '4', '5', '6', '7', '8', '9', 'a', 'b', 'c', 'd', 'e', 'f'][d]
}

/// Two lower-case hexadecimal digits per byte, the high one first.
pub open spec fn hex_of(data: Seq<u8>) -> Seq<char> {
    Seq::new(
        (2 * data.len()) as nat,
        |i: int|
            if i % 2 == 0 {
                hex_digit(data[i / 2] as int / 16)
            } else {
                hex_digit(data[i / 2] as int % 16)
            },
    )
}

/// Relies on `hex::encode`: each byte becomes two digits of `0123456789abcdef`,
/// the high nibble first.
#[verifier::external_body]
fn hex_encode(data: &Vec<u8>) -> (r: String)
    ensures
        r@ == hex_of(data@),
{
    hex::encode(data)
}

/// The digest of a text under an algorithm.
pub open spec fn digest_of(algo: HashAlgorythm, text: Seq<char>) -> Seq<u8> {
    match algo {
        HashAlgorythm::Sha3_224 => sha3_224_of(text),
        HashAlgorythm::Sha3_256 => sha3_256_of(text),
        HashAlgorythm::Sha3_384 => sha3_384_of(text),
        HashAlgorythm::Sha3_512 => sha3_512_of(text),
    }
}

/// How a digest is shown: nothing for no digest, else in the chosen encoding.
pub open spec fn preview_of(option: HashPreviewOption, data: Seq<u8>) -> Seq<char> {
    if data.len() == 0 {
        Seq::empty()
    } else {
        match option {
            HashPreviewOption::Base64 => base64_of(data),
            HashPreviewOption::Hex => hex_of(data),
        }
    }
}

impl HashAlgorythm {
    /// The algorithm at a position of the menu, in the order of `title`.
    pub fn from_index(i: u32) -> (r: Option<HashAlgorythm>)
        ensures
            i == 0 ==> r == Some(HashAlgorythm::Sha3_224),
            i == 1 ==> r == Some(HashAlgorythm::Sha3_256),
            i == 2 ==> r == Some(HashAlgorythm::Sha3_384),
            i == 3 ==> r == Some(HashAlgorythm::Sha3_512),
            i > 3 ==> r is None,
    {
        match i {
            0 => Some(HashAlgorythm::Sha3_224),
            1 => Some(HashAlgorythm::Sha3_256),
            2 => Some(HashAlgorythm::Sha3_384),
            3 => Some(HashAlgorythm::Sha3_512),
            _ => None,
        }
    }

    /// The menu title of the algorithm.
    pub fn title(&self) -> (r: &'static str)
        ensures
            r@ == match *self {
                HashAlgorythm::Sha3_224 => "SHA3-224"@,
                HashAlgorythm::Sha3_256 => "SHA3-256"@,
                HashAlgorythm::Sha3_384 => "SHA3-384"@,
                HashAlgorythm::Sha3_512 => "SHA3-512"@,
            },
    {
        match self {
            HashAlgorythm::Sha3_224 => "SHA3-224",
            HashAlgorythm::Sha3_256 => "SHA3-256",
            HashAlgorythm::Sha3_384 => "SHA3-384",
            HashAlgorythm::Sha3_512 => "SHA3-512",
        }
    }
}

/// A text, the digest last computed from it, and how to show that digest.
#[derive(Clone, Debug)]
pub struct Hasher {
    pub algo: HashAlgorythm,
    pub option: HashPreviewOption,
    pub text: String,
    pub data: Vec<u8>,
}

impl Hasher {
    /// An empty text with no digest yet.
    pub fn new(algo: HashAlgorythm, option: HashPreviewOption) -> (r: Hasher)
        ensures
            r.algo == algo,
            r.option == option,
            r.text@.len() == 0,
            r.data@.len() == 0,
    {
        Hasher { algo, option, text: String::new(), data: Vec::new() }
    }

    /// Hashes the text with the chosen algorithm. An empty text leaves the
    /// last digest in place.
    pub fn calculate(&mut self)
        ensures
            final(self).algo == old(self).algo,
            final(self).option == old(self).option,
            final(self).text@ == old(self).text@,
            old(self).text@.len() == 0 ==> final(self).data@ == old(self).data@,
            old(self).text@.len() > 0 ==> final(self).data@ == digest_of(
                old(self).algo,
                old(self).text@,
            ),
    {
        if self.text.as_str().is_empty() {
            return ;
        }
        self.data = match self.algo {
            HashAlgorythm::Sha3_224 => sha3_224(self.text.as_str()),
            HashAlgorythm::Sha3_256 => sha3_256(self.text.as_str()),
            HashAlgorythm::Sha3_384 => sha3_384(self.text.as_str()),
            HashAlgorythm::Sha3_512 => sha3_512(self.text.as_str()),
        };
    }

    /// The digest as text, in the chosen encoding; empty while there is no digest.
    pub fn view(&self) -> (r: String)
        requires
            self.data@.len() <= usize::MAX / 2,
        ensures
            r@ == preview_of(self.option, self.data@),
    {
        if self.data.len() == 0 {
            return String::new();
        }
        match self.option {
            HashPreviewOption::Base64 => base64_no_pad(&self.data),
            HashPreviewOption::Hex => hex_encode(&self.data),
        }
    }
}

} // verus!
