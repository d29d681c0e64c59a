//! Authenticator algorithms.
use vstd::prelude::*;

verus! {

/// Cryptographic algorithm used for authenticator operations.
#[derive(Debug, Clone, Copy, PartialEq, Eq, Hash, Structural)]
pub enum Algorithm {
    /// Ed25519 elliptic curve digital signature algorithm.
    Ed25519,
    /// ECDSA with the P-256 (secp256r1) curve.
    Secp256r1,
}

/// Default authenticator algorithm — Ed25519.
pub const DEFAULT_AUTHENTICATOR_ALGORITHM: Algorithm = Algorithm::Ed25519;

} // verus!
