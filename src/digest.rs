use crate::algorithm::PasswordHashFunc;
use sha2::Digest;
use vstd::prelude::*;
use vstd::utf8::encode_utf8;

verus! {

/// SHA-224 digest of a byte string.
pub uninterp spec fn sha224_of(data: Seq<u8>) -> Seq<u8>;

/// SHA-256 digest of a byte string.
pub uninterp spec fn sha256_of(data: Seq<u8>) -> Seq<u8>;

/// SHA-384 digest of a byte string.
pub uninterp spec fn sha384_of(data: Seq<u8>) -> Seq<u8>;

/// SHA-512 digest of a byte string.
pub uninterp spec fn sha512_of(data: Seq<u8>) -> Seq<u8>;

/// SHA-512/224 digest of a byte string.
pub uninterp spec fn sha512_224_of(data: Seq<u8>) -> Seq<u8>;

/// SHA-512/256 digest of a byte string.
pub uninterp spec fn sha512_256_of(data: Seq<u8>) -> Seq<u8>;

/// The digest that `f` computes over `data`.
pub open spec fn digest_of(f: PasswordHashFunc, data: Seq<u8>) -> Seq<u8> {
    match f {
        PasswordHashFunc::SHA224 => sha224_of(data),
        PasswordHashFunc::SHA256 => sha256_of(data),
        PasswordHashFunc::SHA384 => sha384_of(data),
        PasswordHashFunc::SHA512 => sha512_of(data),
        PasswordHashFunc::SHA512_224 => sha512_224_of(data),
        PasswordHashFunc::SHA512_256 => sha512_256_of(data),
    }
}

/// How many bytes the digest of `f` has.
pub open spec fn digest_len(f: PasswordHashFunc) -> nat {
    match f {
        PasswordHashFunc::SHA224 => 28,
        PasswordHashFunc::SHA256 => 32,
        PasswordHashFunc::SHA384 => 48,
        PasswordHashFunc::SHA512 => 64,
        PasswordHashFunc::SHA512_224 => 28,
        PasswordHashFunc::SHA512_256 => 32,
    }
}

/// The lowercase hexadecimal digit for a value below sixteen.
pub open spec fn hex_digit(v: u8) -> char {
    if v < 10 {
        ('0' as u8 + v) as char
    } else {
        ('a' as u8 + (v - 10)) as char
    }
}

/// Lowercase hexadecimal rendering: two digits per byte, high nibble first.
pub open spec fn hex_lower(b: Seq<u8>) -> Seq<char> {
    Seq::new(
        2 * b.len(),
        |i: int|
            if i % 2 == 0 {
                hex_digit(b[i / 2] / 16)
            } else {
                hex_digit(b[i / 2] % 16)
            },
    )
}

/// One application of `f` to a text: its UTF-8 bytes are digested and the
/// digest is rendered in lowercase hexadecimal.
pub open spec fn digest_hex(f: PasswordHashFunc, s: Seq<char>) -> Seq<char> {
    hex_lower(digest_of(f, encode_utf8(s)))
}

/// Relies on `sha2::Sha224::digest`: the SHA-224 digest of the bytes, 28
/// bytes long.
#[verifier::external_body]
fn sha224_bytes(data: &[u8]) -> (r: Vec<u8>)
    ensures
        r@ == sha224_of(data@),
        r@.len() == 28,
{
    sha2::Sha224::digest(data).to_vec()
}

/// Relies on `sha2::Sha256::digest`: the SHA-256 digest of the bytes, 32
/// bytes long.
#[verifier::external_body]
fn sha256_bytes(data: &[u8]) -> (r: Vec<u8>)
    ensures
        r@ == sha256_of(data@),
        r@.len() == 32,
{
    sha2::Sha256::digest(data).to_vec()
}

/// Relies on `sha2::Sha384::digest`: the SHA-384 digest of the bytes, 48
/// bytes long.
#[verifier::external_body]
fn sha384_bytes(data: &[u8]) -> (r: Vec<u8>)
    ensures
        r@ == sha384_of(data@),
        r@.len() == 48,
{
    sha2::Sha384::digest(data).to_vec()
}

/// Relies on `sha2::Sha512::digest`: the SHA-512 digest of the bytes, 64
/// bytes long.
#[verifier::external_body]
fn sha512_bytes(data: &[u8]) -> (r: Vec<u8>)
    ensures
        r@ == sha512_of(data@),
        r@.len() == 64,
{
    sha2::Sha512::digest(data).to_vec()
}

/// Relies on `sha2::Sha512_224::digest`: the SHA-512/224 digest of the
/// bytes, 28 bytes long.
#[verifier::external_body]
fn sha512_224_bytes(data: &[u8]) -> (r: Vec<u8>)
    ensures
        r@ == sha512_224_of(data@),
        r@.len() == 28,
{
    sha2::Sha512_224::digest(data).to_vec()
}

/// Relies on `sha2::Sha512_256::digest`: the SHA-512/256 digest of the
/// bytes, 32 bytes long.
#[verifier::external_body]
fn sha512_256_bytes(data: &[u8]) -> (r: Vec<u8>)
    ensures
        r@ == sha512_256_of(data@),
        r@.len() == 32,
{
    sha2::Sha512_256::digest(data).to_vec()
}

/// Relies on `hex::encode`: two lowercase hexadecimal digits per byte, high
/// nibble first.
#[verifier::external_body]
fn hex_encode(data: &[u8]) -> (r: String)
    ensures
        r@ == hex_lower(data@),
{
    hex::encode(data)
}

/// Digests the UTF-8 bytes of `target` with `func` and renders the digest in
/// lowercase hexadecimal.
pub fn hash_func_doit(func: PasswordHashFunc, target: &str) -> (r: String)
    ensures
        r@ == digest_hex(func, target@),
        r@.len() == 2 * digest_len(func),
{
    let bytes = target.as_bytes();
    let digest = match func {
        PasswordHashFunc::SHA224 => sha224_bytes(bytes),
        PasswordHashFunc::SHA256 => sha256_bytes(bytes),
        PasswordHashFunc::SHA384 => sha384_bytes(bytes),
        PasswordHashFunc::SHA512 => sha512_bytes(bytes),
        PasswordHashFunc::SHA512_224 => sha512_224_bytes(bytes),
        PasswordHashFunc::SHA512_256 => sha512_256_bytes(bytes),
    };
    hex_encode(digest.as_slice())
}

} // verus!
