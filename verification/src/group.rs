//! One interface to the two groups.
//!
//! A flag says which group is meant: `true` for G1, `false` for G2. The
//! functions here choose the matching operation of the curve boundary, and
//! their contracts choose the matching name. Public keys live in one group and
//! signatures in the other, so every algorithm of the scheme is written once,
//! over the flag `keys_in_g1`, and uses `keys_in_g1` for keys and
//! `!keys_in_g1` for signatures.

use crate::curve::{
    add_g1, add_g2, g1_canonical, g1_has_group_order, g1_hash, g1_identity, g1_identity_bytes,
    g1_in_group, g1_negation, g1_product, g1_sum, g2_canonical, g2_has_group_order, g2_hash,
    g2_identity, g2_identity_bytes, g2_in_group, g2_negation, g2_product, g2_sum, hash_to_g1,
    hash_to_g2, multiply_g1, multiply_g2, negate_g1, negate_g2, pairing_pair_is_one,
    pairing_pair_is_unit, recode_g1, recode_g2, G1_SIZE, G2_SIZE, SCALAR_SIZE,
};
use amcl_wrapper::errors::SerzDeserzError;
use vstd::prelude::*;

verus! {

/// Length of an encoded element of the chosen group.
pub open spec fn point_size(in_g1: bool) -> nat {
    if in_g1 {
        G1_SIZE as nat
    } else {
        G2_SIZE as nat
    }
}

/// The encoding of the identity of the chosen group.
pub open spec fn point_identity(in_g1: bool) -> Seq<u8> {
    if in_g1 {
        g1_identity()
    } else {
        g2_identity()
    }
}

/// What decoding and encoding again makes of the bytes, in the chosen group.
pub open spec fn point_canonical(in_g1: bool, bytes: Seq<u8>) -> Seq<u8> {
    if in_g1 {
        g1_canonical(bytes)
    } else {
        g2_canonical(bytes)
    }
}

/// Whether the bytes decode to an element of prime order of the chosen group.
pub open spec fn point_in_group(in_g1: bool, bytes: Seq<u8>) -> bool {
    if in_g1 {
        g1_in_group(bytes)
    } else {
        g2_in_group(bytes)
    }
}

/// The element of the chosen group that a message hashes to.
pub open spec fn point_hash(in_g1: bool, message: Seq<u8>) -> Seq<u8> {
    if in_g1 {
        g1_hash(message)
    } else {
        g2_hash(message)
    }
}

/// The product of an element of the chosen group and a scalar.
pub open spec fn point_product(in_g1: bool, point: Seq<u8>, scalar: Seq<u8>) -> Seq<u8> {
    if in_g1 {
        g1_product(point, scalar)
    } else {
        g2_product(point, scalar)
    }
}

/// The sum of two elements of the chosen group.
pub open spec fn point_sum(in_g1: bool, a: Seq<u8>, b: Seq<u8>) -> Seq<u8> {
    if in_g1 {
        g1_sum(a, b)
    } else {
        g2_sum(a, b)
    }
}

/// The negation of an element of the chosen group.
pub open spec fn point_negation(in_g1: bool, point: Seq<u8>) -> Seq<u8> {
    if in_g1 {
        g1_negation(point)
    } else {
        g2_negation(point)
    }
}

/// The sum of `start` and all of `points`, added one by one from the left.
pub open spec fn point_total(in_g1: bool, start: Seq<u8>, points: Seq<Seq<u8>>) -> Seq<u8> {
    points.fold_left(start, |acc: Seq<u8>, p: Seq<u8>| point_sum(in_g1, acc, p))
}

/// A key-group element and a signature-group element, put in the order that
/// the pairing takes: the element of G1 first.
pub open spec fn oriented(keys_in_g1: bool, key_side: Seq<u8>, signature_side: Seq<u8>) -> (
    Seq<u8>,
    Seq<u8>,
) {
    if keys_in_g1 {
        (key_side, signature_side)
    } else {
        (signature_side, key_side)
    }
}

/// Whether `e(k1, s1) * e(k2, s2)` is the unit, for `k1` and `k2` in the key
/// group and `s1` and `s2` in the signature group.
pub open spec fn pair_cancels(
    keys_in_g1: bool,
    k1: Seq<u8>,
    s1: Seq<u8>,
    k2: Seq<u8>,
    s2: Seq<u8>,
) -> bool {
    if keys_in_g1 {
        pairing_pair_is_unit(k1, s1, k2, s2)
    } else {
        pairing_pair_is_unit(s1, k1, s2, k2)
    }
}

/// Adding one more point to a total adds it to the total of those before it.
pub proof fn lemma_total_step(in_g1: bool, start: Seq<u8>, points: Seq<Seq<u8>>, i: int)
    requires
        0 <= i < points.len(),
    ensures
        point_total(in_g1, start, points.take(i + 1)) == point_sum(
            in_g1,
            point_total(in_g1, start, points.take(i)),
            points[i],
        ),
{
    assert(points.take(i + 1).drop_last() =~= points.take(i));
    assert(points.take(i + 1).last() == points[i]);
}

/// The identity of the chosen group.
pub(crate) fn identity_point(in_g1: bool) -> (r: Vec<u8>)
    ensures
        r@ == point_identity(in_g1),
        r@.len() == point_size(in_g1),
{
    if in_g1 {
        g1_identity_bytes()
    } else {
        g2_identity_bytes()
    }
}

/// Decodes in the chosen group and encodes again; fails on a wrong length.
pub(crate) fn recode_point(in_g1: bool, bytes: &[u8]) -> (r: Result<Vec<u8>, SerzDeserzError>)
    ensures
        r is Ok <==> bytes@.len() == point_size(in_g1),
        r matches Ok(v) ==> v@ == point_canonical(in_g1, bytes@) && v@.len() == point_size(in_g1),
{
    if in_g1 {
        recode_g1(bytes)
    } else {
        recode_g2(bytes)
    }
}

/// Whether the bytes decode to an element of prime order.
pub(crate) fn has_group_order(in_g1: bool, bytes: &[u8]) -> (r: bool)
    requires
        bytes@.len() == point_size(in_g1),
    ensures
        r == point_in_group(in_g1, bytes@),
{
    if in_g1 {
        g1_has_group_order(bytes)
    } else {
        g2_has_group_order(bytes)
    }
}

/// Hashes a message into the chosen group.
pub(crate) fn hash_to_point(in_g1: bool, message: &[u8]) -> (r: Vec<u8>)
    ensures
        r@ == point_hash(in_g1, message@),
        r@.len() == point_size(in_g1),
{
    if in_g1 {
        hash_to_g1(message)
    } else {
        hash_to_g2(message)
    }
}

/// Multiplies an element of the chosen group by a scalar.
pub(crate) fn multiply_point(in_g1: bool, point: &[u8], scalar: &[u8]) -> (r: Vec<u8>)
    requires
        point@.len() == point_size(in_g1),
        scalar@.len() == SCALAR_SIZE,
    ensures
        r@ == point_product(in_g1, point@, scalar@),
        r@.len() == point_size(in_g1),
{
    if in_g1 {
        multiply_g1(point, scalar)
    } else {
        multiply_g2(point, scalar)
    }
}

/// Adds two elements of the chosen group.
pub(crate) fn add_points(in_g1: bool, a: &[u8], b: &[u8]) -> (r: Vec<u8>)
    requires
        a@.len() == point_size(in_g1),
        b@.len() == point_size(in_g1),
    ensures
        r@ == point_sum(in_g1, a@, b@),
        r@.len() == point_size(in_g1),
{
    if in_g1 {
        add_g1(a, b)
    } else {
        add_g2(a, b)
    }
}

/// Negates an element of the chosen group.
pub(crate) fn negate_point(in_g1: bool, point: &[u8]) -> (r: Vec<u8>)
    requires
        point@.len() == point_size(in_g1),
    ensures
        r@ == point_negation(in_g1, point@),
        r@.len() == point_size(in_g1),
{
    if in_g1 {
        negate_g1(point)
    } else {
        negate_g2(point)
    }
}

/// Puts a key-group element and a signature-group element in pairing order.
pub(crate) fn orient(keys_in_g1: bool, key_side: Vec<u8>, signature_side: Vec<u8>) -> (r: (
    Vec<u8>,
    Vec<u8>,
))
    ensures
        (r.0@, r.1@) == oriented(keys_in_g1, key_side@, signature_side@),
{
    if keys_in_g1 {
        (key_side, signature_side)
    } else {
        (signature_side, key_side)
    }
}

/// Evaluates the product of two pairings and tests it for the unit.
pub(crate) fn pair_is_one(keys_in_g1: bool, k1: &[u8], s1: &[u8], k2: &[u8], s2: &[u8]) -> (r:
    bool)
    requires
        k1@.len() == point_size(keys_in_g1),
        k2@.len() == point_size(keys_in_g1),
        s1@.len() == point_size(!keys_in_g1),
        s2@.len() == point_size(!keys_in_g1),
    ensures
        r == pair_cancels(keys_in_g1, k1@, s1@, k2@, s2@),
{
    if keys_in_g1 {
        pairing_pair_is_one(k1, s1, k2, s2)
    } else {
        pairing_pair_is_one(s1, k1, s2, k2)
    }
}

} // verus!
