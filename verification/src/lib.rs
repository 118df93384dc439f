//! Deterministic derivation of cryptographic identity material from a
//! mnemonic phrase, and a variable-length digest engine.
//!
//! The crate has two independent components. [`identity::IdentityState`]
//! keeps a mnemonic phrase, its underlying 32-byte entropy (as a hex seed)
//! and the keypair derived from that entropy consistent with each other,
//! rejecting malformed input without corrupting previously valid state.
//! [`digest::DigestState`] maps arbitrary input text to a BLAKE2b digest of
//! a caller-chosen width between 1 and 64 bytes.

pub mod digest;
pub mod hexstr;
pub mod identity;
pub mod keypair;
pub mod mnemonic;
pub mod sign;
