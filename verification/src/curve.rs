//! The boundary to `amcl_wrapper`: scalars, the groups G1 and G2 and the pairing
//! of BLS12-381.
//!
//! A value crosses this boundary as the bytes that `to_bytes` of its outside
//! type gives: 48 bytes for a scalar, 97 for an element of G1 and 192 for one
//! of G2. Nothing in this file is proved. Each function makes one outside
//! computation and states that its result is a function of the bytes handed
//! in, under a name that has no definition here. The arithmetic behind a name
//! is the outside crate's; no contract in this library says anything about it
//! beyond the length of what comes back.

use amcl_wrapper::errors::SerzDeserzError;
use amcl_wrapper::extension_field_gt::GT;
use amcl_wrapper::field_elem::FieldElement;
use amcl_wrapper::group_elem::GroupElement;
use amcl_wrapper::group_elem_g1::G1;
use amcl_wrapper::group_elem_g2::G2;
use vstd::prelude::*;

verus! {

/// Length of an encoded scalar.
pub const SCALAR_SIZE: usize = 48;

/// Length of an encoded element of G1.
pub const G1_SIZE: usize = 97;

/// Length of an encoded element of G2.
pub const G2_SIZE: usize = 192;

/// The error that the outside decoders return; carried through unread.
#[verifier::external_type_specification]
#[verifier::external_body]
pub struct ExSerzDeserzError(SerzDeserzError);

/// What `FieldElement::from_bytes` makes of 48 bytes, encoded again: the
/// number they spell, reduced modulo the group order.
pub uninterp spec fn reduced_scalar(bytes: Seq<u8>) -> Seq<u8>;

/// The scalar that `FieldElement::from_msg_hash` derives from a message,
/// encoded.
pub uninterp spec fn scalar_hash(message: Seq<u8>) -> Seq<u8>;

/// What `G1::from_bytes` makes of 97 bytes, encoded again. Bytes that are not
/// a point of the curve decode to the identity, so this differs from its
/// argument on them.
pub uninterp spec fn g1_canonical(bytes: Seq<u8>) -> Seq<u8>;

/// Whether the element of G1 that the bytes decode to has the group's prime
/// order, as `has_correct_order` tests it.
pub uninterp spec fn g1_in_group(bytes: Seq<u8>) -> bool;

/// The element of G1 that `G1::from_msg_hash` derives from a message, encoded.
pub uninterp spec fn g1_hash(message: Seq<u8>) -> Seq<u8>;

/// The product of an element of G1 and a scalar, encoded.
pub uninterp spec fn g1_product(point: Seq<u8>, scalar: Seq<u8>) -> Seq<u8>;

/// The sum of two elements of G1, encoded.
pub uninterp spec fn g1_sum(a: Seq<u8>, b: Seq<u8>) -> Seq<u8>;

/// The negation of an element of G1, encoded.
pub uninterp spec fn g1_negation(point: Seq<u8>) -> Seq<u8>;

/// What `G2::from_bytes` makes of 192 bytes, encoded again.
pub uninterp spec fn g2_canonical(bytes: Seq<u8>) -> Seq<u8>;

/// Whether the element of G2 that the bytes decode to has the group's prime
/// order, as `has_correct_order` tests it.
pub uninterp spec fn g2_in_group(bytes: Seq<u8>) -> bool;

/// The element of G2 that `G2::from_msg_hash` derives from a message, encoded.
pub uninterp spec fn g2_hash(message: Seq<u8>) -> Seq<u8>;

/// The product of an element of G2 and a scalar, encoded.
pub uninterp spec fn g2_product(point: Seq<u8>, scalar: Seq<u8>) -> Seq<u8>;

/// The sum of two elements of G2, encoded.
pub uninterp spec fn g2_sum(a: Seq<u8>, b: Seq<u8>) -> Seq<u8>;

/// The negation of an element of G2, encoded.
pub uninterp spec fn g2_negation(point: Seq<u8>) -> Seq<u8>;

/// Whether `e(a1, a2) * e(b1, b2)` is the unit of the target group, for `a1`
/// and `b1` in G1 and `a2` and `b2` in G2.
pub uninterp spec fn pairing_pair_is_unit(
    a1: Seq<u8>,
    a2: Seq<u8>,
    b1: Seq<u8>,
    b2: Seq<u8>,
) -> bool;

/// Whether the product of `e(p.0, p.1)` over all pairs `p` is the unit of the
/// target group, each pair holding an element of G1 and one of G2.
pub uninterp spec fn pairing_product_is_unit(pairs: Seq<(Seq<u8>, Seq<u8>)>) -> bool;

/// The encoding of the identity of G1: the tag 4, a zero x and y = 1.
pub open spec fn g1_identity() -> Seq<u8> {
    Seq::new(
        G1_SIZE as nat,
        |i: int|
            if i == 0 {
                4u8
            } else if i == G1_SIZE - 1 {
                1u8
            } else {
                0u8
            },
    )
}

/// The encoding of the identity of G2: a zero x and y = 1, each coordinate in
/// two halves of 48 bytes.
pub open spec fn g2_identity() -> Seq<u8> {
    Seq::new(
        G2_SIZE as nat,
        |i: int|
            if i == 3 * SCALAR_SIZE - 1 {
                1u8
            } else {
                0u8
            },
    )
}

/// Whether every pair holds 97 bytes and then 192: what the pairing product
/// can decode.
pub open spec fn pairs_decodable(pairs: Seq<(Seq<u8>, Seq<u8>)>) -> bool {
    forall|i: int|
        0 <= i < pairs.len() ==> (#[trigger] pairs[i]).0.len() == G1_SIZE && pairs[i].1.len()
            == G2_SIZE
}

/// The views of a list of encoded pairs.
pub open spec fn pair_views(pairs: Seq<(Vec<u8>, Vec<u8>)>) -> Seq<(Seq<u8>, Seq<u8>)> {
    pairs.map_values(|p: (Vec<u8>, Vec<u8>)| (p.0@, p.1@))
}

/// `FieldElement::random`, encoded. Two calls differ, so the result has no
/// name. Claimed: it has 48 bytes and is already reduced, the outside crate
/// drawing it below the group order.
#[verifier::external_body]
pub(crate) fn random_scalar() -> (r: Vec<u8>)
    ensures
        r@.len() == SCALAR_SIZE,
        reduced_scalar(r@) == r@,
{
    FieldElement::random().to_bytes()
}

/// `FieldElement::from_bytes`, encoded again with `to_bytes`. Claimed: it
/// fails exactly on a length other than 48; what it gives is named, has 48
/// bytes, and reducing it once more changes nothing.
#[verifier::external_body]
pub(crate) fn reduce_scalar(bytes: &[u8]) -> (r: Result<Vec<u8>, SerzDeserzError>)
    ensures
        r is Ok <==> bytes@.len() == SCALAR_SIZE,
        r matches Ok(v) ==> v@ == reduced_scalar(bytes@) && v@.len() == SCALAR_SIZE
            && reduced_scalar(v@) == v@,
{
    match FieldElement::from_bytes(bytes) {
        Ok(scalar) => Ok(scalar.to_bytes()),
        Err(e) => Err(e),
    }
}

/// `FieldElement::from_msg_hash`, encoded. Claimed: the result is named and
/// has 48 bytes.
#[verifier::external_body]
pub(crate) fn hash_to_scalar(message: &[u8]) -> (r: Vec<u8>)
    ensures
        r@ == scalar_hash(message@),
        r@.len() == SCALAR_SIZE,
{
    FieldElement::from_msg_hash(message).to_bytes()
}

/// `G1::from_bytes`, encoded again with `to_bytes`. Claimed: it fails exactly
/// on a length other than 97; what it gives is named and has 97 bytes.
#[verifier::external_body]
pub(crate) fn recode_g1(bytes: &[u8]) -> (r: Result<Vec<u8>, SerzDeserzError>)
    ensures
        r is Ok <==> bytes@.len() == G1_SIZE,
        r matches Ok(v) ==> v@ == g1_canonical(bytes@) && v@.len() == G1_SIZE,
{
    match G1::from_bytes(bytes) {
        Ok(point) => Ok(point.to_bytes()),
        Err(e) => Err(e),
    }
}

/// `has_correct_order` of the decoded element of G1. Claimed: the result is
/// named.
#[verifier::external_body]
pub(crate) fn g1_has_group_order(bytes: &[u8]) -> (r: bool)
    requires
        bytes@.len() == G1_SIZE,
    ensures
        r == g1_in_group(bytes@),
{
    G1::from_bytes(bytes).unwrap().has_correct_order()
}

/// `G1::identity`, encoded. Claimed: the bytes are those of `g1_identity`.
#[verifier::external_body]
pub(crate) fn g1_identity_bytes() -> (r: Vec<u8>)
    ensures
        r@ == g1_identity(),
{
    G1::identity().to_bytes()
}

/// `G1::from_msg_hash`, encoded. Claimed: the result is named and has 97
/// bytes.
#[verifier::external_body]
pub(crate) fn hash_to_g1(message: &[u8]) -> (r: Vec<u8>)
    ensures
        r@ == g1_hash(message@),
        r@.len() == G1_SIZE,
{
    G1::from_msg_hash(message).to_bytes()
}

/// The outside crate's `*` of an element of G1 by a scalar, on decoded
/// arguments, encoded. Claimed: the result is named and has 97 bytes.
#[verifier::external_body]
pub(crate) fn multiply_g1(point: &[u8], scalar: &[u8]) -> (r: Vec<u8>)
    requires
        point@.len() == G1_SIZE,
        scalar@.len() == SCALAR_SIZE,
    ensures
        r@ == g1_product(point@, scalar@),
        r@.len() == G1_SIZE,
{
    let p = G1::from_bytes(point).unwrap();
    let s = FieldElement::from_bytes(scalar).unwrap();
    (&p * &s).to_bytes()
}

/// The outside crate's `+` of two elements of G1, on decoded arguments,
/// encoded. Claimed: the result is named and has 97 bytes.
#[verifier::external_body]
pub(crate) fn add_g1(a: &[u8], b: &[u8]) -> (r: Vec<u8>)
    requires
        a@.len() == G1_SIZE,
        b@.len() == G1_SIZE,
    ensures
        r@ == g1_sum(a@, b@),
        r@.len() == G1_SIZE,
{
    let p = G1::from_bytes(a).unwrap();
    let q = G1::from_bytes(b).unwrap();
    (&p + &q).to_bytes()
}

/// The outside crate's unary `-` of an element of G1, on the decoded
/// argument, encoded. Claimed: the result is named and has 97 bytes.
#[verifier::external_body]
pub(crate) fn negate_g1(point: &[u8]) -> (r: Vec<u8>)
    requires
        point@.len() == G1_SIZE,
    ensures
        r@ == g1_negation(point@),
        r@.len() == G1_SIZE,
{
    let p = G1::from_bytes(point).unwrap();
    (-&p).to_bytes()
}

/// `G2::from_bytes`, encoded again with `to_bytes`. Claimed: it fails exactly
/// on a length other than 192; what it gives is named and has 192 bytes.
#[verifier::external_body]
pub(crate) fn recode_g2(bytes: &[u8]) -> (r: Result<Vec<u8>, SerzDeserzError>)
    ensures
        r is Ok <==> bytes@.len() == G2_SIZE,
        r matches Ok(v) ==> v@ == g2_canonical(bytes@) && v@.len() == G2_SIZE,
{
    match G2::from_bytes(bytes) {
        Ok(point) => Ok(point.to_bytes()),
        Err(e) => Err(e),
    }
}

/// `has_correct_order` of the decoded element of G2. Claimed: the result is
/// named.
#[verifier::external_body]
pub(crate) fn g2_has_group_order(bytes: &[u8]) -> (r: bool)
    requires
        bytes@.len() == G2_SIZE,
    ensures
        r == g2_in_group(bytes@),
{
    G2::from_bytes(bytes).unwrap().has_correct_order()
}

/// `G2::identity`, encoded. Claimed: the bytes are those of `g2_identity`.
#[verifier::external_body]
pub(crate) fn g2_identity_bytes() -> (r: Vec<u8>)
    ensures
        r@ == g2_identity(),
{
    G2::identity().to_bytes()
}

/// `G2::from_msg_hash`, encoded. Claimed: the result is named and has 192
/// bytes.
#[verifier::external_body]
pub(crate) fn hash_to_g2(message: &[u8]) -> (r: Vec<u8>)
    ensures
        r@ == g2_hash(message@),
        r@.len() == G2_SIZE,
{
    G2::from_msg_hash(message).to_bytes()
}

/// The outside crate's `*` of an element of G2 by a scalar, on decoded
/// arguments, encoded. Claimed: the result is named and has 192 bytes.
#[verifier::external_body]
pub(crate) fn multiply_g2(point: &[u8], scalar: &[u8]) -> (r: Vec<u8>)
    requires
        point@.len() == G2_SIZE,
        scalar@.len() == SCALAR_SIZE,
    ensures
        r@ == g2_product(point@, scalar@),
        r@.len() == G2_SIZE,
{
    let p = G2::from_bytes(point).unwrap();
    let s = FieldElement::from_bytes(scalar).unwrap();
    (&p * &s).to_bytes()
}

/// The outside crate's `+` of two elements of G2, on decoded arguments,
/// encoded. Claimed: the result is named and has 192 bytes.
#[verifier::external_body]
pub(crate) fn add_g2(a: &[u8], b: &[u8]) -> (r: Vec<u8>)
    requires
        a@.len() == G2_SIZE,
        b@.len() == G2_SIZE,
    ensures
        r@ == g2_sum(a@, b@),
        r@.len() == G2_SIZE,
{
    let p = G2::from_bytes(a).unwrap();
    let q = G2::from_bytes(b).unwrap();
    (&p + &q).to_bytes()
}

/// The outside crate's unary `-` of an element of G2, on the decoded
/// argument, encoded. Claimed: the result is named and has 192 bytes.
#[verifier::external_body]
pub(crate) fn negate_g2(point: &[u8]) -> (r: Vec<u8>)
    requires
        point@.len() == G2_SIZE,
    ensures
        r@ == g2_negation(point@),
        r@.len() == G2_SIZE,
{
    let p = G2::from_bytes(point).unwrap();
    (-&p).to_bytes()
}

/// `GT::ate_2_pairing` on the decoded arguments, then `GT::is_one` of what it
/// gives. Claimed: the answer is named.
#[verifier::external_body]
pub(crate) fn pairing_pair_is_one(a1: &[u8], a2: &[u8], b1: &[u8], b2: &[u8]) -> (r: bool)
    requires
        a1@.len() == G1_SIZE,
        a2@.len() == G2_SIZE,
        b1@.len() == G1_SIZE,
        b2@.len() == G2_SIZE,
    ensures
        r == pairing_pair_is_unit(a1@, a2@, b1@, b2@),
{
    let p1 = G1::from_bytes(a1).unwrap();
    let p2 = G2::from_bytes(a2).unwrap();
    let q1 = G1::from_bytes(b1).unwrap();
    let q2 = G2::from_bytes(b2).unwrap();
    GT::ate_2_pairing(&p1, &p2, &q1, &q2).is_one()
}

/// `GT::ate_multi_pairing` on the decoded pairs, in their order, then
/// `GT::is_one` of what it gives. Claimed: the answer is named.
#[verifier::external_body]
pub(crate) fn pairing_product_is_one(pairs: &Vec<(Vec<u8>, Vec<u8>)>) -> (r: bool)
    requires
        pairs_decodable(pair_views(pairs@)),
    ensures
        r == pairing_product_is_unit(pair_views(pairs@)),
{
    let points: Vec<(G1, G2)> = pairs
        .iter()
        .map(|p| (G1::from_bytes(&p.0).unwrap(), G2::from_bytes(&p.1).unwrap()))
        .collect();
    GT::ate_multi_pairing(points.iter().map(|p| (&p.0, &p.1)).collect()).is_one()
}

/// The `Debug` text of the outside decoding error. Nothing is claimed of it.
#[verifier::external_body]
pub(crate) fn describe(e: &SerzDeserzError) -> (r: String) {
    format!("{:?}", e)
}

} // verus!
