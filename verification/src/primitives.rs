//! Trusted wrappers around the cryptographic primitives of the cipher suite.
//!
//! Each wrapper makes one call into an outside crate — curve25519-dalek for
//! the Ristretto255 group, sha2 for SHA-512, argon2 for the slow hash, rand
//! for the secure random source — and its contract states only what that
//! crate's source and documentation show.  Results that are deterministic
//! functions of the arguments alone but have no short mathematical statement
//! (a digest, a group operation on encodings) are given uninterpreted names,
//! and the verified engine's contracts are exact over those names.

use vstd::prelude::*;

use crate::errors::RegisterError;
use curve25519_dalek::constants::RISTRETTO_BASEPOINT_POINT;
use curve25519_dalek::ristretto::CompressedRistretto;
use curve25519_dalek::ristretto::RistrettoPoint;
use curve25519_dalek::scalar::Scalar;
use rand::RngCore;
use sha2::Digest;
use sha2::Sha512;

verus! {

/// The SHA-512 digest of a byte string.
pub uninterp spec fn sha512_of(input: Seq<u8>) -> Seq<u8>;

/// The encoding of the Ristretto255 group element obtained from 64 uniform
/// bytes.
pub uninterp spec fn from_uniform_of(input: Seq<u8>) -> Seq<u8>;

/// The encoding of the scalar multiple `scalar * point`, both given by their
/// canonical encodings.
pub uninterp spec fn point_mul_of(scalar: Seq<u8>, point: Seq<u8>) -> Seq<u8>;

/// The encoding of `scalar * B` for the Ristretto255 basepoint `B`.
pub uninterp spec fn base_mul_of(scalar: Seq<u8>) -> Seq<u8>;

/// The canonical encoding of the multiplicative inverse of a scalar.
pub uninterp spec fn scalar_invert_of(scalar: Seq<u8>) -> Seq<u8>;

/// The canonical encoding of a scalar reduced from 64 wide bytes.
pub uninterp spec fn scalar_reduce_wide_of(input: Seq<u8>) -> Seq<u8>;

/// The output of the suite's slow hash (Argon2, default parameters, fixed
/// all-zero salt) on an input, stretched to the digest length.
pub uninterp spec fn slow_hash_of(input: Seq<u8>) -> Seq<u8>;

/// Whether a 32-byte string is the valid encoding of a Ristretto255 group
/// element.
pub uninterp spec fn is_point(encoding: Seq<u8>) -> bool;

/// Whether a 32-byte string is the canonical encoding of a Ristretto255
/// scalar.
pub uninterp spec fn is_scalar(encoding: Seq<u8>) -> bool;

/// Relies on rand's OsRng: `try_fill_bytes` fills the whole buffer on
/// success and reports failure of the operating system's entropy source.
#[verifier::external_body]
pub(crate) fn random_bytes_64() -> (r: Result<Vec<u8>, RegisterError>)
    ensures
        r matches Ok(v) ==> v@.len() == 64,
        r matches Err(e) ==> e == RegisterError::RandomSource,
{
    let mut buf = vec![0u8; 64];
    match rand::rngs::OsRng.try_fill_bytes(&mut buf) {
        Ok(()) => Ok(buf),
        Err(_) => Err(RegisterError::RandomSource),
    }
}

/// Relies on sha2's `Sha512::digest`: a 64-byte digest depending on the input
/// bytes alone.
#[verifier::external_body]
pub(crate) fn sha512(input: &[u8]) -> (r: Vec<u8>)
    ensures
        r@ == sha512_of(input@),
        r@.len() == 64,
{
    Sha512::digest(input).to_vec()
}

/// Relies on curve25519-dalek's `RistrettoPoint::from_uniform_bytes`: maps 64
/// uniform bytes to a group element, a function of the input alone; the
/// returned compressed encoding is canonical, so it decompresses again.
#[verifier::external_body]
pub(crate) fn ristretto_from_uniform(input: &[u8]) -> (r: Vec<u8>)
    requires
        input@.len() == 64,
    ensures
        r@ == from_uniform_of(input@),
        r@.len() == 32,
        is_point(r@),
{
    let mut arr = [0u8; 64];
    arr.copy_from_slice(input);
    RistrettoPoint::from_uniform_bytes(&arr).compress().to_bytes().to_vec()
}

/// Relies on curve25519-dalek's `CompressedRistretto::decompress`: succeeds
/// exactly on valid encodings of group elements.
#[verifier::external_body]
pub(crate) fn check_point(encoding: &[u8]) -> (r: bool)
    requires
        encoding@.len() == 32,
    ensures
        r == is_point(encoding@),
{
    CompressedRistretto::from_slice(encoding).decompress().is_some()
}

/// Relies on curve25519-dalek's `Scalar::from_canonical_bytes`: succeeds
/// exactly on canonical little-endian encodings of scalars.
#[verifier::external_body]
pub(crate) fn check_scalar(encoding: &[u8]) -> (r: bool)
    requires
        encoding@.len() == 32,
    ensures
        r == is_scalar(encoding@),
{
    let mut arr = [0u8; 32];
    arr.copy_from_slice(encoding);
    Scalar::from_canonical_bytes(arr).is_some()
}

/// Relies on curve25519-dalek's `Scalar::from_bytes_mod_order_wide`: reduces
/// 64 bytes modulo the group order, a function of the input alone; `to_bytes`
/// of the reduced scalar is canonical.
#[verifier::external_body]
pub(crate) fn scalar_reduce_wide(input: &[u8]) -> (r: Vec<u8>)
    requires
        input@.len() == 64,
    ensures
        r@ == scalar_reduce_wide_of(input@),
        r@.len() == 32,
        is_scalar(r@),
{
    let mut arr = [0u8; 64];
    arr.copy_from_slice(input);
    Scalar::from_bytes_mod_order_wide(&arr).to_bytes().to_vec()
}

/// Relies on curve25519-dalek's `Scalar::invert`: the multiplicative inverse,
/// a function of the scalar alone, returned in canonical encoding.
#[verifier::external_body]
pub(crate) fn scalar_invert(scalar: &[u8]) -> (r: Vec<u8>)
    requires
        scalar@.len() == 32,
        is_scalar(scalar@),
    ensures
        r@ == scalar_invert_of(scalar@),
        r@.len() == 32,
        is_scalar(r@),
{
    let mut arr = [0u8; 32];
    arr.copy_from_slice(scalar);
    let s = Scalar::from_canonical_bytes(arr).unwrap();
    s.invert().to_bytes().to_vec()
}

/// Relies on curve25519-dalek's scalar multiplication on `RistrettoPoint`:
/// defined exactly when the point encoding decompresses, a function of the
/// two encodings alone; compression of the product is canonical.
#[verifier::external_body]
pub(crate) fn point_mul(scalar: &[u8], point: &[u8]) -> (r: Option<Vec<u8>>)
    requires
        scalar@.len() == 32,
        point@.len() == 32,
        is_scalar(scalar@),
    ensures
        (r is Some) == is_point(point@),
        r matches Some(v) ==> v@ == point_mul_of(scalar@, point@) && v@.len() == 32 && is_point(
            v@,
        ),
{
    let mut arr = [0u8; 32];
    arr.copy_from_slice(scalar);
    let s = Scalar::from_canonical_bytes(arr).unwrap();
    match CompressedRistretto::from_slice(point).decompress() {
        Some(p) => Some((p * s).compress().to_bytes().to_vec()),
        None => None,
    }
}

/// Relies on curve25519-dalek's basepoint multiplication: `scalar * B`, a
/// function of the scalar alone; compression of the result is canonical.
#[verifier::external_body]
pub(crate) fn base_mul(scalar: &[u8]) -> (r: Vec<u8>)
    requires
        scalar@.len() == 32,
        is_scalar(scalar@),
    ensures
        r@ == base_mul_of(scalar@),
        r@.len() == 32,
        is_point(r@),
{
    let mut arr = [0u8; 32];
    arr.copy_from_slice(scalar);
    let s = Scalar::from_canonical_bytes(arr).unwrap();
    (RISTRETTO_BASEPOINT_POINT * s).compress().to_bytes().to_vec()
}

/// Relies on argon2's `Argon2::hash_password_into` with the crate's default
/// parameters and an all-zero salt of the minimum accepted length: the output
/// depends on the input bytes alone.  With this fixed configuration every
/// parameter check in the primitive passes — the salt is exactly the minimum
/// length, the 64-byte output and the digest-sized input are within bounds —
/// so the call succeeds; memory exhaustion, like allocation failure anywhere
/// else, is outside the verification model.  The error arm is kept so a
/// runtime failure would still surface as the slow-hash error.
#[verifier::external_body]
pub(crate) fn argon2_stretch(input: &[u8]) -> (r: Result<Vec<u8>, RegisterError>)
    requires
        input@.len() == 64,
    ensures
        r is Ok,
        r matches Ok(v) ==> v@ == slow_hash_of(input@) && v@.len() == 64,
{
    let mut out = vec![0u8; 64];
    let salt = [0u8; argon2::MIN_SALT_LEN];
    match argon2::Argon2::default().hash_password_into(input, &salt, &mut out) {
        Ok(()) => Ok(out),
        Err(_) => Err(RegisterError::SlowHash),
    }
}

} // verus!
