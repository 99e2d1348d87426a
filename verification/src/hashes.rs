//! Hex-encoded digests of strings and byte buffers.
//!
//! Each public function hashes its input with a standard algorithm (MD5,
//! SHA-1, SHA-256 or SHA-512) and returns the digest as a lowercase hex
//! string, two digits per digest byte, with no separators or prefix.  The
//! digests themselves come from mature outside libraries and are named, not
//! restated; the hex encoding is specified exactly.

use vstd::prelude::*;
use vstd::string::StringSliceAdditionalSpecFns;
use sha2::Digest;

verus! {

/// The MD5 digest (16 bytes) of a byte sequence.
pub uninterp spec fn md5_of(bytes: Seq<u8>) -> Seq<u8>;

/// The SHA-1 digest (20 bytes) of a byte sequence.
pub uninterp spec fn sha1_of(bytes: Seq<u8>) -> Seq<u8>;

/// The SHA-256 digest (32 bytes) of a byte sequence.
pub uninterp spec fn sha256_of(bytes: Seq<u8>) -> Seq<u8>;

/// The SHA-512 digest (64 bytes) of a byte sequence.
pub uninterp spec fn sha512_of(bytes: Seq<u8>) -> Seq<u8>;

/// The lowercase hex digit for a value below 16: `0`-`9` then `a`-`f`.
pub open spec fn hex_digit(n: u8) -> char {
    if n == 0 {
        '0'
    } else if n == 1 {
        '1'
    } else if n == 2 {
        '2'
    } else if n == 3 {
        '3'
    } else if n == 4 {
        '4'
    } else if n == 5 {
        '5'
    } else if n == 6 {
        '6'
    } else if n == 7 {
        '7'
    } else if n == 8 {
        '8'
    } else if n == 9 {
        '9'
    } else if n == 10 {
        'a'
    } else if n == 11 {
        'b'
    } else if n == 12 {
        'c'
    } else if n == 13 {
        'd'
    } else if n == 14 {
        'e'
    } else {
        'f'
    }
}

/// The lowercase hex encoding of a byte sequence: for each byte in order,
/// the digit of its high nibble, then the digit of its low nibble.
pub open spec fn hex_of(bytes: Seq<u8>) -> Seq<char> {
    Seq::new(
        2 * bytes.len(),
        |i: int|
            if i % 2 == 0 {
                hex_digit((bytes[i / 2] >> 4) & 0xf)
            } else {
                hex_digit(bytes[i / 2] & 0xf)
            },
    )
}

/// Relies on md5::compute: a 16-byte digest determined by the input bytes
/// alone.
#[verifier::external_body]
fn md5_digest(bytes: &[u8]) -> (r: Vec<u8>)
    ensures
        r@ == md5_of(bytes@),
        r@.len() == 16,
{
    md5::compute(bytes).0.to_vec()
}

/// Relies on sha1::Sha1 through Digest::digest: a 20-byte digest determined
/// by the input bytes alone.
#[verifier::external_body]
fn sha1_digest(bytes: &[u8]) -> (r: Vec<u8>)
    ensures
        r@ == sha1_of(bytes@),
        r@.len() == 20,
{
    sha1::Sha1::digest(bytes).to_vec()
}

/// Relies on sha2::Sha256 through Digest::digest: a 32-byte digest determined
/// by the input bytes alone.
#[verifier::external_body]
fn sha256_digest(bytes: &[u8]) -> (r: Vec<u8>)
    ensures
        r@ == sha256_of(bytes@),
        r@.len() == 32,
{
    sha2::Sha256::digest(bytes).to_vec()
}

/// Relies on sha2::Sha512 through Digest::digest: a 64-byte digest determined
/// by the input bytes alone.
#[verifier::external_body]
fn sha512_digest(bytes: &[u8]) -> (r: Vec<u8>)
    ensures
        r@ == sha512_of(bytes@),
        r@.len() == 64,
{
    sha2::Sha512::digest(bytes).to_vec()
}

/// Relies on hex::encode: per input byte, in order, the lowercase digit of
/// its high nibble then the digit of its low nibble.
#[verifier::external_body]
fn hex_encode(bytes: &[u8]) -> (r: String)
    ensures
        r@ == hex_of(bytes@),
{
    hex::encode(bytes)
}

/// The MD5 digest of a byte buffer, as a lowercase hex string.
pub fn hash_md5_bytes(bytes: &[u8]) -> (r: String)
    ensures
        r@ == hex_of(md5_of(bytes@)),
        r@.len() == 32,
{
    let digest = md5_digest(bytes);
    hex_encode(digest.as_slice())
}

/// The MD5 digest of a string's UTF-8 bytes, as a lowercase hex string.
pub fn hash_md5_str(text: &str) -> (r: String)
    ensures
        r@ == hex_of(md5_of(text.spec_bytes())),
        r@.len() == 32,
{
    let digest = md5_digest(text.as_bytes());
    hex_encode(digest.as_slice())
}

/// The SHA-1 digest of a byte buffer, as a lowercase hex string.
pub fn hash_sha1_bytes(bytes: &[u8]) -> (r: String)
    ensures
        r@ == hex_of(sha1_of(bytes@)),
        r@.len() == 40,
{
    let digest = sha1_digest(bytes);
    hex_encode(digest.as_slice())
}

/// The SHA-1 digest of a string's UTF-8 bytes, as a lowercase hex string.
pub fn hash_sha1_str(text: &str) -> (r: String)
    ensures
        r@ == hex_of(sha1_of(text.spec_bytes())),
        r@.len() == 40,
{
    let digest = sha1_digest(text.as_bytes());
    hex_encode(digest.as_slice())
}

/// The SHA-256 digest of a byte buffer, as a lowercase hex string.
pub fn hash_sha256_bytes(bytes: &[u8]) -> (r: String)
    ensures
        r@ == hex_of(sha256_of(bytes@)),
        r@.len() == 64,
{
    let digest = sha256_digest(bytes);
    hex_encode(digest.as_slice())
}

/// The SHA-256 digest of a string's UTF-8 bytes, as a lowercase hex string.
pub fn hash_sha256_str(text: &str) -> (r: String)
    ensures
        r@ == hex_of(sha256_of(text.spec_bytes())),
        r@.len() == 64,
{
    let digest = sha256_digest(text.as_bytes());
    hex_encode(digest.as_slice())
}

/// The SHA-512 digest of a byte buffer, as a lowercase hex string.
pub fn hash_sha512_bytes(bytes: &[u8]) -> (r: String)
    ensures
        r@ == hex_of(sha512_of(bytes@)),
        r@.len() == 128,
{
    let digest = sha512_digest(bytes);
    hex_encode(digest.as_slice())
}

/// The SHA-512 digest of a string's UTF-8 bytes, as a lowercase hex string.
pub fn hash_sha512_str(text: &str) -> (r: String)
    ensures
        r@ == hex_of(sha512_of(text.spec_bytes())),
        r@.len() == 128,
{
    let digest = sha512_digest(text.as_bytes());
    hex_encode(digest.as_slice())
}

} // verus!
