//! Pairing-based aggregate signatures over BLS12-381: key pairs, signing,
//! aggregation with a defence against rogue keys, verification of one, many
//! and batched signatures, and fixed-size encodings, in two mirrored
//! configurations.

pub mod bytes;
pub mod codec;
pub mod curve;
pub mod error;
pub mod group;
pub mod keys;
pub mod laws;
pub mod normal;
pub mod scheme;
pub mod sharing_error;
pub mod signature;
pub mod small;

pub use crate::keys::PrivateKey;
use vstd::prelude::*;

verus! {

/// Length of an encoded private key.
pub const PRIVATE_KEY_SIZE: usize = 48;

} // verus!
