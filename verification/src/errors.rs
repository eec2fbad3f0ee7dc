//! The error taxonomy of the engine.
//!
//! Every failure is returned to the caller as a distinct, inspectable value;
//! the engine never recovers silently and never retries on its own.

use vstd::prelude::*;

verus! {

/// A message byte string was rejected by the codec.
///
/// Distinct variants let a caller tell corrupt transport (wrong lengths) from
/// peer incompatibility (encodings that are not valid group elements).
#[derive(Clone, Copy, Debug, PartialEq, Eq, Structural)]
pub enum DecodeError {
    /// The input is shorter than the encoding requires.
    Truncated,
    /// The input holds bytes beyond the expected length.
    TrailingBytes,
    /// A field does not decode to a valid group element.
    InvalidElement,
    /// A field is not the canonical encoding of a scalar, or is the zero
    /// scalar where a blinding factor is required.
    InvalidScalar,
    /// A group element field holds the identity element, which the protocol
    /// rejects.
    IdentityElement,
    /// An explicit length field disagrees with the size fixed by the cipher
    /// suite.
    LengthMismatch,
}

/// A protocol-level validity check failed: caller misuse or a bad peer.
#[derive(Clone, Copy, Debug, PartialEq, Eq, Structural)]
pub enum ProtocolError {
    /// The state value was already consumed by a prior successful finish.
    StateConsumed,
    /// Fresh randomness kept producing a rejected blinding (the identity
    /// element) and the internal retry budget ran out.
    RetriesExhausted,
}

/// Any failure the registration engine can surface.
#[derive(Clone, Copy, Debug, PartialEq, Eq, Structural)]
pub enum RegisterError {
    /// The secure random source is unavailable or exhausted.
    RandomSource,
    /// The password-stretching primitive rejected its parameters or failed
    /// internally: a fatal configuration error.
    SlowHash,
    /// A message byte string could not be decoded.
    Decode(DecodeError),
    /// A protocol-level validity check failed.
    Protocol(ProtocolError),
}

} // verus!
