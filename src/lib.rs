//! Fixed-size byte representations of Ed25519 verification keys, signing
//! keys and signatures, decoded from a caller-supplied fallible fill.
//!
//! Each of the three `ed25519_dalek` types implements [`ReprBytes`]:
//! `to_bytes` gives the canonical encoding (32, 32 and 64 bytes), and
//! `from_bytes` hands a zeroed buffer to the caller's fill, passes its error
//! on unchanged, and otherwise decodes what it wrote. Only a verification key
//! can reject well-sized bytes, which it reports as `None`.
//!
//! The trait's methods share their names with inherent methods of the
//! `ed25519_dalek` types, so call them as `<VerifyingKey as ReprBytes>::from_bytes`.

pub mod dalek;
pub mod repr;
pub mod signature;
pub mod signing;
pub mod verifying;

pub use repr::ReprBytes;
