//! The cipher suite: a closed, compile-time set of algorithm bindings.
//!
//! The group is Ristretto255, the hash is SHA-512, the key-exchange binding is
//! a triple Diffie-Hellman envelope, and the slow hash is Argon2 with its
//! default parameters and a fixed all-zero salt of the minimum length the
//! primitive accepts.  The fixed salt is deliberate: the protocol's own
//! blinding already supplies per-registration randomness, and client and
//! server must derive identical key material.  There is no negotiation;
//! changing any one binding yields an incompatible protocol variant.

use vstd::prelude::*;

verus! {

/// Length in bytes of an encoded Ristretto255 group element.
pub const ELEMENT_LEN: usize = 32;

/// Length in bytes of the canonical encoding of a Ristretto255 scalar.
pub const SCALAR_LEN: usize = 32;

/// Length in bytes of an encoded public key (one group element).
pub const KEY_LEN: usize = 32;

/// Output length in bytes of the suite's hash, SHA-512.
pub const DIGEST_LEN: usize = 64;

/// Length in bytes of a serialized `RegistrationResponse`:
/// the evaluated element followed by the server public key.
pub const RESPONSE_LEN: usize = 64;

/// Length in bytes of the envelope carried by a `RegistrationUpload`:
/// a key-sized ciphertext followed by a digest-sized authentication tag.
pub const ENVELOPE_LEN: usize = 96;

/// Length in bytes of the explicit length field that prefixes the envelope
/// inside a serialized `RegistrationUpload`.
pub const ENVELOPE_LEN_PREFIX_LEN: usize = 2;

/// Length in bytes of a serialized `RegistrationUpload`.
pub const UPLOAD_LEN: usize = 130;

/// How many fresh random draws `start` makes before giving up, when a draw
/// yields a zero blinding scalar or blinds to the identity element.
pub const BLIND_RETRY_LIMIT: usize = 8;

/// Domain-separation tag: hashing the password onto the group.
pub const TAG_HASH_TO_GROUP: u8 = 1;

/// Domain-separation tag: deriving the raw OPRF output after unblinding.
pub const TAG_OPRF_OUTPUT: u8 = 2;

/// Domain-separation tag: deriving the client private key from the stretched
/// key material.
pub const TAG_CLIENT_KEY: u8 = 3;

/// Domain-separation tag: deriving the envelope's encryption pad.
pub const TAG_PAD: u8 = 4;

/// Domain-separation tag: deriving the envelope's authentication key.
pub const TAG_AUTH_KEY: u8 = 5;

/// Domain-separation tag: computing the envelope's authentication tag.
pub const TAG_AUTH: u8 = 6;

} // verus!
