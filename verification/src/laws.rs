//! What holds of the scheme whatever the inputs, proved from the contracts.
//!
//! The laws that need no arithmetic of the curve are proved outright. The
//! laws of a correct signature rest on the pairing being bilinear, which is
//! the outside crate's and is nowhere assumed: they are proved from
//! `verification_is_linear`, a hypothesis that says it, and hold of the
//! running library as far as the outside pairing meets it.

use crate::curve::{G1_SIZE, G2_SIZE};
use crate::group::{
    pair_cancels, point_hash, point_identity, point_negation, point_product, point_sum,
    point_total,
};
use crate::scheme::{
    aggregated_key_of, aggregated_signature_of, coefficient, decoded_point, decoded_scalar,
    is_point_encoding, is_scalar_encoding, key_size, message_hashes, mitigated_signature_of,
    public_key_of, signature_of, signature_size, summed_key_of, verifies, verifies_multi,
    weighted_keys,
};
use vstd::prelude::*;

verus! {

/// Decoding the encoding of a scalar gives the scalar back.
pub proof fn lemma_scalar_round_trip(scalar: Seq<u8>)
    ensures
        is_scalar_encoding(scalar) ==> decoded_scalar(scalar) == Some(scalar),
{
}

/// Decoding the encoding of a group element gives the element back, and
/// nothing else decodes to it: the encoding is the only preimage.
pub proof fn lemma_point_round_trip(in_g1: bool, point: Seq<u8>, bytes: Seq<u8>)
    ensures
        is_point_encoding(in_g1, point) ==> decoded_point(in_g1, point) == Some(point),
        decoded_point(in_g1, bytes) == Some(point) ==> bytes == point && is_point_encoding(
            in_g1,
            point,
        ),
{
}

/// The sizes of one configuration are those of the other, exchanged.
pub proof fn lemma_sizes_mirror(keys_in_g1: bool)
    ensures
        key_size(keys_in_g1) == signature_size(!keys_in_g1),
        signature_size(keys_in_g1) == key_size(!keys_in_g1),
        key_size(true) == crate::normal::PUBLIC_KEY_SIZE,
        signature_size(true) == crate::normal::SIGNATURE_SIZE,
        key_size(false) == crate::small::PUBLIC_KEY_SIZE,
        signature_size(false) == crate::small::SIGNATURE_SIZE,
        crate::normal::PUBLIC_KEY_SIZE == crate::small::SIGNATURE_SIZE,
        crate::normal::SIGNATURE_SIZE == crate::small::PUBLIC_KEY_SIZE,
        G1_SIZE != G2_SIZE,
{
}

/// A message that occurs twice among the inputs makes the multi-signer
/// verification fail, whatever the signature and the keys.
pub proof fn lemma_repeated_message_fails(
    keys_in_g1: bool,
    signature: Seq<u8>,
    inputs: Seq<(Seq<u8>, Seq<u8>)>,
    g: Seq<u8>,
    i: int,
    j: int,
)
    requires
        0 <= i < inputs.len(),
        0 <= j < inputs.len(),
        i != j,
        inputs[i].0 == inputs[j].0,
    ensures
        !verifies_multi(keys_in_g1, signature, inputs, g),
{
    let hashes = message_hashes(keys_in_g1, inputs);
    assert(hashes[i] == hashes[j]);
}

/// The hypothesis that the verification equation is linear, which a
/// bilinear pairing on groups of prime order makes true: for every generator
/// `g` and hash `h`, the pairs of a signature and a key that satisfy
/// `e(-g, s) * e(k, h) = 1` hold `(h * x, g * x)` for every scalar `x` and
/// the two identities, and are closed under adding pairs and under
/// multiplying both sides by one scalar.
pub open spec fn verification_is_linear(keys_in_g1: bool) -> bool {
    linear_over(keys_in_g1, !keys_in_g1)
}

/// `verification_is_linear`, with the group of the signatures named by a flag
/// of its own.
pub open spec fn linear_over(keys_in_g1: bool, signatures_in_g1: bool) -> bool {
    &&& forall|g: Seq<u8>, h: Seq<u8>, x: Seq<u8>| #[trigger]
        pair_cancels(
            keys_in_g1,
            point_negation(keys_in_g1, g),
            point_product(signatures_in_g1, h, x),
            point_product(keys_in_g1, g, x),
            h,
        )
    &&& forall|n: Seq<u8>, h: Seq<u8>| #[trigger]
        pair_cancels(
            keys_in_g1,
            n,
            point_identity(signatures_in_g1),
            point_identity(keys_in_g1),
            h,
        )
    &&& forall|n: Seq<u8>, h: Seq<u8>, s1: Seq<u8>, k1: Seq<u8>, s2: Seq<u8>, k2: Seq<u8>|
        pair_cancels(keys_in_g1, n, s1, k1, h) && pair_cancels(keys_in_g1, n, s2, k2, h)
            ==> #[trigger] pair_cancels(
            keys_in_g1,
            n,
            point_sum(signatures_in_g1, s1, s2),
            point_sum(keys_in_g1, k1, k2),
            h,
        )
    &&& forall|n: Seq<u8>, h: Seq<u8>, s: Seq<u8>, k: Seq<u8>, t: Seq<u8>|
        pair_cancels(keys_in_g1, n, s, k, h) ==> #[trigger] pair_cancels(
            keys_in_g1,
            n,
            point_product(signatures_in_g1, s, t),
            point_product(keys_in_g1, k, t),
            h,
        )
}

/// If the verification equation is linear, a signature verifies against the
/// message it was made for under the public key of its private key.
pub proof fn lemma_signature_verifies(keys_in_g1: bool, message: Seq<u8>, sk: Seq<u8>, g: Seq<u8>)
    ensures
        verification_is_linear(keys_in_g1) ==> verifies(
            keys_in_g1,
            signature_of(keys_in_g1, message, sk),
            message,
            public_key_of(keys_in_g1, sk, g),
            g,
        ),
{
}

/// If the verification equation is linear, sums of as many signatures and
/// keys, added in step, verify when each signature verifies under its key.
pub proof fn lemma_totals_verify(
    keys_in_g1: bool,
    message: Seq<u8>,
    g: Seq<u8>,
    signatures: Seq<Seq<u8>>,
    keys: Seq<Seq<u8>>,
)
    requires
        verification_is_linear(keys_in_g1),
        signatures.len() == keys.len(),
        forall|i: int|
            0 <= i < keys.len() ==> verifies(
                keys_in_g1,
                #[trigger] signatures[i],
                message,
                keys[i],
                g,
            ),
    ensures
        verifies(
            keys_in_g1,
            point_total(!keys_in_g1, point_identity(!keys_in_g1), signatures),
            message,
            point_total(keys_in_g1, point_identity(keys_in_g1), keys),
            g,
        ),
    decreases keys.len(),
{
    if keys.len() > 0 {
        let n = keys.len() - 1;
        assert(verifies(keys_in_g1, signatures[n], message, keys[n], g));
        assert forall|i: int| 0 <= i < n implies verifies(
            keys_in_g1,
            #[trigger] signatures.drop_last()[i],
            message,
            keys.drop_last()[i],
            g,
        ) by {
            assert(verifies(keys_in_g1, signatures[i], message, keys[i], g));
        }
        lemma_totals_verify(keys_in_g1, message, g, signatures.drop_last(), keys.drop_last());
    }
}

/// If the verification equation is linear, the sum of the mitigated
/// signatures of all signers of one message verifies against the aggregated
/// public key of the same ordered list of keys, for any number of signers.
pub proof fn lemma_mitigated_aggregate_verifies(
    keys_in_g1: bool,
    message: Seq<u8>,
    g: Seq<u8>,
    sks: Seq<Seq<u8>>,
)
    ensures
        verification_is_linear(keys_in_g1) ==> ({
            let keys = Seq::new(sks.len(), |i: int| public_key_of(keys_in_g1, sks[i], g));
            let signatures = Seq::new(
                sks.len(),
                |i: int| mitigated_signature_of(keys_in_g1, message, sks[i], keys, i),
            );
            verifies(
                keys_in_g1,
                aggregated_signature_of(keys_in_g1, signatures),
                message,
                aggregated_key_of(keys_in_g1, keys),
                g,
            )
        }),
{
    if verification_is_linear(keys_in_g1) {
        let keys = Seq::new(sks.len(), |i: int| public_key_of(keys_in_g1, sks[i], g));
        let signatures = Seq::new(
            sks.len(),
            |i: int| mitigated_signature_of(keys_in_g1, message, sks[i], keys, i),
        );
        let weighted = weighted_keys(keys_in_g1, keys);
        assert forall|i: int| 0 <= i < weighted.len() implies verifies(
            keys_in_g1,
            #[trigger] signatures[i],
            message,
            weighted[i],
            g,
        ) by {
            lemma_signature_verifies(keys_in_g1, message, sks[i], g);
            assert(pair_cancels(
                keys_in_g1,
                point_negation(keys_in_g1, g),
                point_product(
                    !keys_in_g1,
                    signature_of(keys_in_g1, message, sks[i]),
                    coefficient(keys, i),
                ),
                point_product(keys_in_g1, keys[i], coefficient(keys, i)),
                point_hash(!keys_in_g1, message),
            ));
        }
        lemma_totals_verify(keys_in_g1, message, g, signatures, weighted);
    }
}

/// If the verification equation is linear, the plain sum of the signatures
/// of all signers of one message verifies against the plain sum of their
/// public keys, for any number of signers.
pub proof fn lemma_plain_aggregate_verifies(
    keys_in_g1: bool,
    message: Seq<u8>,
    g: Seq<u8>,
    sks: Seq<Seq<u8>>,
)
    ensures
        verification_is_linear(keys_in_g1) ==> ({
            let keys = Seq::new(sks.len(), |i: int| public_key_of(keys_in_g1, sks[i], g));
            let signatures = Seq::new(
                sks.len(),
                |i: int| signature_of(keys_in_g1, message, sks[i]),
            );
            verifies(
                keys_in_g1,
                aggregated_signature_of(keys_in_g1, signatures),
                message,
                summed_key_of(keys_in_g1, keys),
                g,
            )
        }),
{
    if verification_is_linear(keys_in_g1) {
        let keys = Seq::new(sks.len(), |i: int| public_key_of(keys_in_g1, sks[i], g));
        let signatures = Seq::new(sks.len(), |i: int| signature_of(keys_in_g1, message, sks[i]));
        assert forall|i: int| 0 <= i < keys.len() implies verifies(
            keys_in_g1,
            #[trigger] signatures[i],
            message,
            keys[i],
            g,
        ) by {
            lemma_signature_verifies(keys_in_g1, message, sks[i], g);
        }
        lemma_totals_verify(keys_in_g1, message, g, signatures, keys);
    }
}

} // verus!
