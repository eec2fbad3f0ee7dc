//! Client side of the registration phase of an asymmetric
//! password-authenticated key exchange (PAKE).
//!
//! The engine is a two-step state machine: `start` blinds the password into a
//! `RegistrationRequest` and keeps a private `ClientRegistrationState`;
//! `finish` consumes the server's `RegistrationResponse` together with that
//! state and produces the final `RegistrationUpload`.  All four values have a
//! deterministic binary codec.  The group arithmetic (Ristretto255), the
//! cryptographic hash (SHA-512) and the memory-hard password stretch (Argon2)
//! are called in their crates behind trusted wrappers; everything around those
//! calls is verified.

pub mod byteops;
pub mod codec;
pub mod errors;
pub mod primitives;
pub mod registration;
pub mod suite;
