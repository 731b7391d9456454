//! The configuration with public keys in G1 and signatures in G2: keys of 97
//! bytes, signatures of 192 bytes.

pub use crate::keys::generate;
use vstd::prelude::*;

verus! {

/// Length of an encoded public key.
pub const PUBLIC_KEY_SIZE: usize = 97;

/// Length of an encoded signature.
pub const SIGNATURE_SIZE: usize = 192;

/// The base point of the key group, G1.
pub type Generator = crate::keys::Generator<true>;

/// A public key in G1.
pub type PublicKey = crate::keys::PublicKey<true>;

/// A rogue-key-resistant aggregated public key in G1.
pub type AggregatedPublicKey = crate::keys::AggregatedPublicKey<true>;

/// A signature in G2.
pub type Signature = crate::signature::Signature<true>;

/// An aggregated signature in G2.
pub type AggregatedSignature = crate::signature::AggregatedSignature<true>;

} // verus!
