//! The configuration with public keys in G2 and signatures in G1: keys of 192
//! bytes, signatures of 97 bytes. Signatures are smaller; keys are bigger and
//! verification is slower.

pub use crate::keys::generate;
use vstd::prelude::*;

verus! {

/// Length of an encoded public key.
pub const PUBLIC_KEY_SIZE: usize = 192;

/// Length of an encoded signature.
pub const SIGNATURE_SIZE: usize = 97;

/// The base point of the key group, G2.
pub type Generator = crate::keys::Generator<false>;

/// A public key in G2.
pub type PublicKey = crate::keys::PublicKey<false>;

/// A rogue-key-resistant aggregated public key in G2.
pub type AggregatedPublicKey = crate::keys::AggregatedPublicKey<false>;

/// A signature in G1.
pub type Signature = crate::signature::Signature<false>;

/// An aggregated signature in G1.
pub type AggregatedSignature = crate::signature::AggregatedSignature<false>;

} // verus!
