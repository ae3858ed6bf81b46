//! The hash primitives behind the hash natives.
//!
//! Each digest is named by an uninterpreted function of the input bytes: the
//! outside library computes it, and the contracts state that the result
//! depends on the input alone and has the documented fixed length.

use vstd::prelude::*;

verus! {

use sha2::Digest;

/// The SHA-256 digest of a byte sequence.
pub uninterp spec fn sha256_of(bytes: Seq<u8>) -> Seq<u8>;

/// The SHA-512 digest of a byte sequence.
pub uninterp spec fn sha512_of(bytes: Seq<u8>) -> Seq<u8>;

/// The SHA-512/256 digest of a byte sequence.
pub uninterp spec fn sha512_256_of(bytes: Seq<u8>) -> Seq<u8>;

/// The Keccak-256 digest of a byte sequence.
pub uninterp spec fn keccak256_of(bytes: Seq<u8>) -> Seq<u8>;

/// The RIPEMD-160 digest of a byte sequence.
pub uninterp spec fn ripemd160_of(bytes: Seq<u8>) -> Seq<u8>;

/// The 160-bit address hash: RIPEMD-160 over SHA-256.
pub open spec fn hash160_of(bytes: Seq<u8>) -> Seq<u8> {
    ripemd160_of(sha256_of(bytes))
}

/// Relies on sha2::Sha256 through Digest::digest: the digest is a function
/// of the input bytes alone, 32 bytes long.
#[verifier::external_body]
pub fn sha256_digest(bytes: &[u8]) -> (r: Vec<u8>)
    ensures
        r@ == sha256_of(bytes@),
        r@.len() == 32,
{
    sha2::Sha256::digest(bytes).to_vec()
}

/// Relies on sha2::Sha512 through Digest::digest: the digest is a function
/// of the input bytes alone, 64 bytes long.
#[verifier::external_body]
pub fn sha512_digest(bytes: &[u8]) -> (r: Vec<u8>)
    ensures
        r@ == sha512_of(bytes@),
        r@.len() == 64,
{
    sha2::Sha512::digest(bytes).to_vec()
}

/// Relies on sha2::Sha512_256 through Digest::digest: the digest is a
/// function of the input bytes alone, 32 bytes long.
#[verifier::external_body]
pub fn sha512_256_digest(bytes: &[u8]) -> (r: Vec<u8>)
    ensures
        r@ == sha512_256_of(bytes@),
        r@.len() == 32,
{
    sha2::Sha512_256::digest(bytes).to_vec()
}

/// Relies on sha3::Keccak256 through Digest::digest: the digest is a
/// function of the input bytes alone, 32 bytes long.
#[verifier::external_body]
pub fn keccak256_digest(bytes: &[u8]) -> (r: Vec<u8>)
    ensures
        r@ == keccak256_of(bytes@),
        r@.len() == 32,
{
    sha3::Keccak256::digest(bytes).to_vec()
}

/// Relies on ripemd::Ripemd160 through Digest::digest: the digest is a
/// function of the input bytes alone, 20 bytes long.
#[verifier::external_body]
pub fn ripemd160_digest(bytes: &[u8]) -> (r: Vec<u8>)
    ensures
        r@ == ripemd160_of(bytes@),
        r@.len() == 20,
{
    ripemd::Ripemd160::digest(bytes).to_vec()
}

/// Computes the 160-bit address hash: RIPEMD-160 over SHA-256.
pub fn hash160(bytes: &[u8]) -> (r: Vec<u8>)
    ensures
        r@ == hash160_of(bytes@),
        r@.len() == 20,
{
    let first = sha256_digest(bytes);
    ripemd160_digest(first.as_slice())
}

// ---------------------------------------------------------------------------
// Fixed-width little-endian integer encodings, the byte form integers hash
// over.
// ---------------------------------------------------------------------------
/// The sixteen little-endian bytes of an unsigned 128-bit integer.
pub open spec fn le_bytes_u128(x: u128) -> Seq<u8> {
    Seq::new(16, |k: int| (((x >> ((8 * k) as u128)) & 0xff) as u8))
}

/// The value a signed 128-bit integer wraps to in unsigned form: its
/// two's-complement bit pattern.
pub open spec fn i128_as_u128(v: i128) -> u128 {
    if v >= 0 {
        v as u128
    } else {
        (v + 0x1_0000_0000_0000_0000_0000_0000_0000_0000) as u128
    }
}

/// The sixteen little-endian bytes of a signed 128-bit integer, in
/// two's complement.
pub open spec fn le_bytes_i128(v: i128) -> Seq<u8> {
    le_bytes_u128(i128_as_u128(v))
}

/// Encodes an unsigned 128-bit integer as sixteen little-endian bytes.
pub fn u128_to_le_bytes(x: u128) -> (r: Vec<u8>)
    ensures
        r@ == le_bytes_u128(x),
{
    let mut out: Vec<u8> = Vec::new();
    let mut i: usize = 0;
    while i < 16
        invariant
            i <= 16,
            out@.len() == i,
            forall|k: int| 0 <= k < i ==> out@[k] == (((x >> ((8 * k) as u128)) & 0xff) as u8),
        decreases 16 - i,
    {
        let b = ((x >> ((8 * i) as u128)) & 0xff) as u8;
        out.push(b);
        i += 1;
    }
    proof {
        assert(out@ =~= le_bytes_u128(x));
    }
    out
}

/// Encodes a signed 128-bit integer as sixteen little-endian bytes of its
/// two's-complement form.
pub fn i128_to_le_bytes(v: i128) -> (r: Vec<u8>)
    ensures
        r@ == le_bytes_i128(v),
{
    if v >= 0 {
        u128_to_le_bytes(v as u128)
    } else {
        let flipped: u128 = !((-(v + 1)) as u128);
        proof {
            assert(flipped == i128_as_u128(v)) by {
                let y: u128 = (-(v + 1)) as u128;
                assert(!y == 0xffff_ffff_ffff_ffff_ffff_ffff_ffff_ffffu128 - y) by (bit_vector);
            }
        }
        u128_to_le_bytes(flipped)
    }
}

} // verus!
