//! What the signature scheme computes, stated over encoded values.
//!
//! Every function here is a specification. The flag `keys_in_g1` picks the
//! configuration: with `true` public keys are elements of G1 and signatures
//! elements of G2, with `false` the groups change places. Scalars, keys and
//! signatures are the byte strings of their encodings.

use crate::curve::{pairing_product_is_unit, reduced_scalar, scalar_hash, SCALAR_SIZE};
use crate::error::CryptoError;
use crate::group::{
    oriented, pair_cancels, point_canonical, point_hash, point_identity, point_in_group,
    point_negation, point_product, point_size, point_total,
};
use vstd::prelude::*;

verus! {

/// The encodings of a list of values.
pub open spec fn encodings<T: View<V = Seq<u8>>>(items: Seq<T>) -> Seq<Seq<u8>> {
    items.map_values(|item: T| item@)
}

/// Length of an encoded public key.
pub open spec fn key_size(keys_in_g1: bool) -> nat {
    point_size(keys_in_g1)
}

/// Length of an encoded signature.
pub open spec fn signature_size(keys_in_g1: bool) -> nat {
    point_size(!keys_in_g1)
}

/// Whether the bytes are the encoding of a scalar below the group order.
pub open spec fn is_scalar_encoding(bytes: Seq<u8>) -> bool {
    bytes.len() == SCALAR_SIZE && reduced_scalar(bytes) == bytes
}

/// Whether the bytes are the encoding of an element of prime order of the
/// chosen group: they have its length, decoding and encoding gives them back,
/// and what they decode to has the group's order.
pub open spec fn is_point_encoding(in_g1: bool, bytes: Seq<u8>) -> bool {
    &&& bytes.len() == point_size(in_g1)
    &&& point_canonical(in_g1, bytes) == bytes
    &&& point_in_group(in_g1, bytes)
}

/// The scalar that the bytes decode to: any 48 bytes decode, to the number
/// they spell reduced modulo the group order.
pub open spec fn decoded_scalar(bytes: Seq<u8>) -> Option<Seq<u8>> {
    if bytes.len() == SCALAR_SIZE {
        Some(reduced_scalar(bytes))
    } else {
        None
    }
}

/// The group element that the bytes decode to: only an encoding decodes, and
/// to itself.
pub open spec fn decoded_point(in_g1: bool, bytes: Seq<u8>) -> Option<Seq<u8>> {
    if is_point_encoding(in_g1, bytes) {
        Some(bytes)
    } else {
        None
    }
}

/// The diagnostic of a failed decoding where this library words it: on bytes
/// of the right length that are not what their element encodes as, and on an
/// element that is not of the group's order. On a wrong length the words are
/// the outside crate's and no text is given here.
pub open spec fn rejection_text(in_g1: bool, bytes: Seq<u8>) -> Option<Seq<char>> {
    if bytes.len() != point_size(in_g1) {
        None
    } else if point_canonical(in_g1, bytes) != bytes {
        Some("bytes are not the encoding of a group element"@)
    } else if !point_in_group(in_g1, bytes) {
        Some("element is not of the order of the group"@)
    } else {
        None
    }
}

/// Whether `e` is the parse error that rejects `bytes`.
pub open spec fn rejects(in_g1: bool, bytes: Seq<u8>, e: CryptoError) -> bool {
    &&& decoded_point(in_g1, bytes) is None
    &&& e matches CryptoError::ParseError(text) && (rejection_text(in_g1, bytes) matches Some(t)
        ==> text@ == t)
}

/// The public key of a private key: the generator times the scalar.
pub open spec fn public_key_of(keys_in_g1: bool, sk: Seq<u8>, g: Seq<u8>) -> Seq<u8> {
    point_product(keys_in_g1, g, sk)
}

/// What is hashed into the coefficient of signer `i`: the encodings of all
/// public keys in their order, then the encoding of key `i` once more.
pub open spec fn coefficient_input(keys: Seq<Seq<u8>>, i: int) -> Seq<u8> {
    keys.flatten() + keys[i]
}

/// The coefficient that weighs signer `i` among `keys`.
pub open spec fn coefficient(keys: Seq<Seq<u8>>, i: int) -> Seq<u8> {
    scalar_hash(coefficient_input(keys, i))
}

/// Each public key times its coefficient.
pub open spec fn weighted_keys(keys_in_g1: bool, keys: Seq<Seq<u8>>) -> Seq<Seq<u8>> {
    Seq::new(keys.len(), |i: int| point_product(keys_in_g1, keys[i], coefficient(keys, i)))
}

/// The aggregated public key: the sum of the weighted keys, from the identity.
pub open spec fn aggregated_key_of(keys_in_g1: bool, keys: Seq<Seq<u8>>) -> Seq<u8> {
    point_total(keys_in_g1, point_identity(keys_in_g1), weighted_keys(keys_in_g1, keys))
}

/// The plain sum of public keys, from the identity.
pub open spec fn summed_key_of(keys_in_g1: bool, keys: Seq<Seq<u8>>) -> Seq<u8> {
    point_total(keys_in_g1, point_identity(keys_in_g1), keys)
}

/// The signature of a message: its hash into the signature group times the
/// private key.
pub open spec fn signature_of(keys_in_g1: bool, message: Seq<u8>, sk: Seq<u8>) -> Seq<u8> {
    point_product(!keys_in_g1, point_hash(!keys_in_g1, message), sk)
}

/// The signature of signer `i` among `keys`: the plain signature times the
/// signer's coefficient.
pub open spec fn mitigated_signature_of(
    keys_in_g1: bool,
    message: Seq<u8>,
    sk: Seq<u8>,
    keys: Seq<Seq<u8>>,
    i: int,
) -> Seq<u8> {
    point_product(!keys_in_g1, signature_of(keys_in_g1, message, sk), coefficient(keys, i))
}

/// A signature with more signatures added to it, one by one.
pub open spec fn combined_signature_of(
    keys_in_g1: bool,
    first: Seq<u8>,
    others: Seq<Seq<u8>>,
) -> Seq<u8> {
    point_total(!keys_in_g1, first, others)
}

/// A public key with more keys added to it, one by one.
pub open spec fn combined_key_of(keys_in_g1: bool, first: Seq<u8>, others: Seq<Seq<u8>>) -> Seq<
    u8,
> {
    point_total(keys_in_g1, first, others)
}

/// The aggregated signature: the sum of the signatures, from the identity.
pub open spec fn aggregated_signature_of(keys_in_g1: bool, signatures: Seq<Seq<u8>>) -> Seq<u8> {
    point_total(!keys_in_g1, point_identity(!keys_in_g1), signatures)
}

/// The verification equation `e(-g, signature) * e(key, H(message)) = 1`,
/// with the operands of each pairing in the order of the configuration.
pub open spec fn verifies(
    keys_in_g1: bool,
    signature: Seq<u8>,
    message: Seq<u8>,
    key: Seq<u8>,
    g: Seq<u8>,
) -> bool {
    pair_cancels(
        keys_in_g1,
        point_negation(keys_in_g1, g),
        signature,
        key,
        point_hash(!keys_in_g1, message),
    )
}

/// The hashes of the messages of `inputs`, each input a message and a key.
pub open spec fn message_hashes(keys_in_g1: bool, inputs: Seq<(Seq<u8>, Seq<u8>)>) -> Seq<
    Seq<u8>,
> {
    Seq::new(inputs.len(), |i: int| point_hash(!keys_in_g1, inputs[i].0))
}

/// The pairs of the multi-signer equation: each key with the hash of its
/// message, in the order of `inputs`, then the negated generator with the
/// signature.
pub open spec fn multi_pairs(
    keys_in_g1: bool,
    signature: Seq<u8>,
    inputs: Seq<(Seq<u8>, Seq<u8>)>,
    g: Seq<u8>,
) -> Seq<(Seq<u8>, Seq<u8>)> {
    Seq::new(
        inputs.len(),
        |i: int| oriented(keys_in_g1, inputs[i].1, point_hash(!keys_in_g1, inputs[i].0)),
    ).push(oriented(keys_in_g1, point_negation(keys_in_g1, g), signature))
}

/// Whether a combined signature verifies against messages and keys: no two
/// messages hash to the same element, and
/// `prod e(key_i, H(message_i)) * e(-g, signature) = 1`.
pub open spec fn verifies_multi(
    keys_in_g1: bool,
    signature: Seq<u8>,
    inputs: Seq<(Seq<u8>, Seq<u8>)>,
    g: Seq<u8>,
) -> bool {
    &&& message_hashes(keys_in_g1, inputs).no_duplicates()
    &&& pairing_product_is_unit(multi_pairs(keys_in_g1, signature, inputs, g))
}

/// Whether `exponents` holds one encoded scalar for each of `n` inputs.
pub open spec fn are_exponents(exponents: Seq<Seq<u8>>, n: nat) -> bool {
    &&& exponents.len() == n
    &&& forall|i: int| 0 <= i < n ==> (#[trigger] exponents[i]).len() == SCALAR_SIZE
}

/// The signatures of `triples`, each a message, a signature and a key, every
/// one times its exponent.
pub open spec fn scaled_signatures(
    keys_in_g1: bool,
    triples: Seq<(Seq<u8>, Seq<u8>, Seq<u8>)>,
    exponents: Seq<Seq<u8>>,
) -> Seq<Seq<u8>> {
    Seq::new(triples.len(), |i: int| point_product(!keys_in_g1, triples[i].1, exponents[i]))
}

/// The pairs of the batch equation: each key times its exponent with the hash
/// of its message, in the order of `triples`, then the negated generator with
/// the sum of the scaled signatures.
pub open spec fn batch_pairs(
    keys_in_g1: bool,
    triples: Seq<(Seq<u8>, Seq<u8>, Seq<u8>)>,
    exponents: Seq<Seq<u8>>,
    g: Seq<u8>,
) -> Seq<(Seq<u8>, Seq<u8>)> {
    Seq::new(
        triples.len(),
        |i: int|
            oriented(
                keys_in_g1,
                point_product(keys_in_g1, triples[i].2, exponents[i]),
                point_hash(!keys_in_g1, triples[i].0),
            ),
    ).push(
        oriented(
            keys_in_g1,
            point_negation(keys_in_g1, g),
            aggregated_signature_of(keys_in_g1, scaled_signatures(keys_in_g1, triples, exponents)),
        ),
    )
}

/// Whether a batch verifies under given exponents:
/// `prod e(key_j * r_j, H(message_j)) * e(-g, sum signature_j * r_j) = 1`.
pub open spec fn batch_verifies(
    keys_in_g1: bool,
    triples: Seq<(Seq<u8>, Seq<u8>, Seq<u8>)>,
    exponents: Seq<Seq<u8>>,
    g: Seq<u8>,
) -> bool {
    pairing_product_is_unit(batch_pairs(keys_in_g1, triples, exponents, g))
}

} // verus!
