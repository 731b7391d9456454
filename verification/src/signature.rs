//! Signatures and aggregated signatures: signing, combining and verifying.
//!
//! Each value holds its encoding. The constant parameter `KEYS_IN_G1` of a
//! type is its configuration: `true` puts public keys in G1 and signatures in
//! G2, `false` the other way round.

use crate::bytes::contains_bytes;
use crate::codec::decode_point;
use crate::curve::{pair_views, pairing_product_is_one, pairs_decodable, SCALAR_SIZE};
use crate::error::CryptoError;
use crate::group::{
    add_points, hash_to_point, identity_point, lemma_total_step, multiply_point, negate_point,
    orient, oriented, pair_is_one, point_hash, point_identity, point_product, point_size,
    point_total,
};
use crate::keys::{
    coefficient_of, joined_keys, AggregatedPublicKey, Generator, PrivateKey, PublicKey,
};
use crate::scheme::{
    aggregated_signature_of, are_exponents, batch_pairs, batch_verifies, combined_signature_of,
    decoded_point, encodings, key_size, message_hashes, mitigated_signature_of, multi_pairs,
    rejects, scaled_signatures, signature_of, signature_size, summed_key_of, verifies,
    verifies_multi,
};
use vstd::prelude::*;
use vstd::slice::slice_to_vec;

verus! {

/// A message with the public key that is to have signed it, as encodings.
pub open spec fn signed_inputs<const KEYS_IN_G1: bool>(
    inputs: Seq<(&[u8], &PublicKey<KEYS_IN_G1>)>,
) -> Seq<(Seq<u8>, Seq<u8>)> {
    inputs.map_values(|input: (&[u8], &PublicKey<KEYS_IN_G1>)| (input.0@, input.1@))
}

/// Messages, signatures and public keys, as encodings.
pub open spec fn signature_triples<const KEYS_IN_G1: bool>(
    inputs: Seq<(&[u8], &Signature<KEYS_IN_G1>, &PublicKey<KEYS_IN_G1>)>,
) -> Seq<(Seq<u8>, Seq<u8>, Seq<u8>)> {
    inputs.map_values(
        |input: (&[u8], &Signature<KEYS_IN_G1>, &PublicKey<KEYS_IN_G1>)|
            (input.0@, input.1@, input.2@),
    )
}

/// Messages, aggregated signatures and aggregated public keys, as encodings.
pub open spec fn aggregate_triples<const KEYS_IN_G1: bool>(
    inputs: Seq<(&[u8], &AggregatedSignature<KEYS_IN_G1>, &AggregatedPublicKey<KEYS_IN_G1>)>,
) -> Seq<(Seq<u8>, Seq<u8>, Seq<u8>)> {
    inputs.map_values(
        |input: (&[u8], &AggregatedSignature<KEYS_IN_G1>, &AggregatedPublicKey<KEYS_IN_G1>)|
            (input.0@, input.1@, input.2@),
    )
}

/// Whether every triple holds a signature and a key of the lengths of the
/// configuration.
pub open spec fn triples_sized(keys_in_g1: bool, triples: Seq<(Seq<u8>, Seq<u8>, Seq<u8>)>) -> bool {
    forall|i: int|
        0 <= i < triples.len() ==> (#[trigger] triples[i]).1.len() == signature_size(keys_in_g1)
            && triples[i].2.len() == key_size(keys_in_g1)
}

/// The views of a list of owned triples.
pub open spec fn triple_views(triples: Seq<(Vec<u8>, Vec<u8>, Vec<u8>)>) -> Seq<
    (Seq<u8>, Seq<u8>, Seq<u8>),
> {
    triples.map_values(|t: (Vec<u8>, Vec<u8>, Vec<u8>)| (t.0@, t.1@, t.2@))
}

/// One scalar for each input, from the outside crate's secure random source.
fn draw_exponents(n: usize) -> (exponents: Vec<PrivateKey>)
    ensures
        exponents@.len() == n,
{
    let mut exponents: Vec<PrivateKey> = Vec::new();
    let mut i: usize = 0;
    while i < n
        invariant
            i <= n,
            exponents@.len() == i,
        decreases n - i,
    {
        exponents.push(PrivateKey::random());
        i += 1;
    }
    exponents
}

/// Evaluates the batch equation on encoded triples under given exponents.
fn batch_check(
    keys_in_g1: bool,
    triples: &Vec<(Vec<u8>, Vec<u8>, Vec<u8>)>,
    exponents: &[PrivateKey],
    g: &[u8],
) -> (ok: bool)
    requires
        triples_sized(keys_in_g1, triple_views(triples@)),
        exponents@.len() == triples@.len(),
        g@.len() == key_size(keys_in_g1),
    ensures
        ok == batch_verifies(keys_in_g1, triple_views(triples@), encodings(exponents@), g@),
        are_exponents(encodings(exponents@), triples@.len() as nat),
{
    let ghost views = triple_views(triples@);
    let ghost scalars = encodings(exponents@);
    let ghost scaled = scaled_signatures(keys_in_g1, views, scalars);
    let mut pairs: Vec<(Vec<u8>, Vec<u8>)> = Vec::new();
    let mut sum = identity_point(!keys_in_g1);
    let mut i: usize = 0;
    assert(scaled.take(0) =~= Seq::<Seq<u8>>::empty());
    while i < triples.len()
        invariant
            i <= triples@.len(),
            views == triple_views(triples@),
            scalars == encodings(exponents@),
            scaled == scaled_signatures(keys_in_g1, views, scalars),
            triples_sized(keys_in_g1, views),
            exponents@.len() == triples@.len(),
            forall|j: int| 0 <= j < i ==> (#[trigger] scalars[j]).len() == SCALAR_SIZE,
            sum@.len() == signature_size(keys_in_g1),
            sum@ == point_total(!keys_in_g1, point_identity(!keys_in_g1), scaled.take(i as int)),
            pairs@.len() == i,
            pairs_decodable(pair_views(pairs@)),
            forall|j: int|
                0 <= j < i ==> (#[trigger] pair_views(pairs@)[j]) == oriented(
                    keys_in_g1,
                    point_product(keys_in_g1, views[j].2, scalars[j]),
                    point_hash(!keys_in_g1, views[j].0),
                ),
        decreases triples@.len() - i,
    {
        let exponent = exponents[i].as_bytes();
        assert(views[i as int] == (triples@[i as int].0@, triples@[i as int].1@, triples@[i as int].2@));
        assert(scalars[i as int] == exponents@[i as int]@);
        let hash = hash_to_point(!keys_in_g1, triples[i].0.as_slice());
        let scaled_signature = multiply_point(!keys_in_g1, triples[i].1.as_slice(), exponent);
        sum = add_points(!keys_in_g1, sum.as_slice(), scaled_signature.as_slice());
        let scaled_key = multiply_point(keys_in_g1, triples[i].2.as_slice(), exponent);
        let ghost before = pairs@;
        pairs.push(orient(keys_in_g1, scaled_key, hash));
        proof {
            lemma_total_step(!keys_in_g1, point_identity(!keys_in_g1), scaled, i as int);
            assert forall|j: int| 0 <= j < i + 1 implies (#[trigger] pair_views(pairs@)[j])
                == oriented(
                keys_in_g1,
                point_product(keys_in_g1, views[j].2, scalars[j]),
                point_hash(!keys_in_g1, views[j].0),
            ) by {
                if j < i {
                    assert(pair_views(pairs@)[j] == pair_views(before)[j]);
                }
            }
            assert forall|j: int| 0 <= j < pairs@.len() implies (#[trigger] pair_views(
                pairs@,
            )[j]).0.len() == point_size(true) && pair_views(pairs@)[j].1.len() == point_size(
                false,
            ) by {
                if j < i {
                    assert(pair_views(pairs@)[j] == pair_views(before)[j]);
                }
            }
        }
        i += 1;
    }
    assert(scaled.take(triples@.len() as int) =~= scaled);
    let neg_g = negate_point(keys_in_g1, g);
    let ghost before = pairs@;
    pairs.push(orient(keys_in_g1, neg_g, sum));
    proof {
        assert forall|j: int| 0 <= j < pairs@.len() implies (#[trigger] pair_views(
            pairs@,
        )[j]).0.len() == point_size(true) && pair_views(pairs@)[j].1.len() == point_size(
            false,
        ) by {
            if j < before.len() {
                assert(pair_views(pairs@)[j] == pair_views(before)[j]);
            }
        }
        assert forall|j: int| 0 <= j < before.len() implies pair_views(pairs@)[j] == batch_pairs(
            keys_in_g1,
            views,
            scalars,
            g@,
        )[j] by {
            assert(pair_views(pairs@)[j] == pair_views(before)[j]);
        }
        assert(pair_views(pairs@) =~= batch_pairs(keys_in_g1, views, scalars, g@));
    }
    pairing_product_is_one(&pairs)
}

/// A signature: the hash of the message times the private key, or a sum of
/// such.
#[derive(Debug)]
pub struct Signature<const KEYS_IN_G1: bool> {
    bytes: Vec<u8>,
}

impl<const KEYS_IN_G1: bool> View for Signature<KEYS_IN_G1> {
    type V = Seq<u8>;

    closed spec fn view(&self) -> Seq<u8> {
        self.bytes@
    }
}

impl<const KEYS_IN_G1: bool> Clone for Signature<KEYS_IN_G1> {
    fn clone(&self) -> (copy: Self)
        ensures
            copy@ == self@,
    {
        proof {
            use_type_invariant(self);
        }
        Signature { bytes: self.bytes.clone() }
    }
}

impl<const KEYS_IN_G1: bool> Signature<KEYS_IN_G1> {
    #[verifier::type_invariant]
    spec fn well_formed(&self) -> bool {
        self.bytes@.len() == signature_size(KEYS_IN_G1)
    }

    /// Signs a message. The signature has no defence against rogue keys: who
    /// combines such signatures has to defend otherwise.
    pub fn new(message: &[u8], sk: &PrivateKey) -> (signature: Self)
        ensures
            signature@ == signature_of(KEYS_IN_G1, message@, sk@),
    {
        let hash = hash_to_point(!KEYS_IN_G1, message);
        Signature { bytes: multiply_point(!KEYS_IN_G1, hash.as_slice(), sk.as_bytes()) }
    }

    /// Signs a message as signer `pk_index` among the ordered keys `pks`: the
    /// plain signature times the coefficient that the aggregated public key
    /// of the same list gives this signer.
    pub fn new_with_rk_mitigation(
        message: &[u8],
        sk: &PrivateKey,
        pk_index: usize,
        pks: &[PublicKey<KEYS_IN_G1>],
    ) -> (signature: Self)
        requires
            pk_index < pks@.len(),
        ensures
            signature@ == mitigated_signature_of(
                KEYS_IN_G1,
                message@,
                sk@,
                encodings(pks@),
                pk_index as int,
            ),
    {
        let joined = joined_keys(pks);
        let t = coefficient_of(&joined, pks, pk_index);
        let hash = hash_to_point(!KEYS_IN_G1, message);
        let plain = multiply_point(!KEYS_IN_G1, hash.as_slice(), sk.as_bytes());
        Signature { bytes: multiply_point(!KEYS_IN_G1, plain.as_slice(), t.as_slice()) }
    }

    /// Adds `signatures` to this one, one by one.
    pub fn combine(&mut self, signatures: &[Signature<KEYS_IN_G1>])
        ensures
            final(self)@ == combined_signature_of(KEYS_IN_G1, old(self)@, encodings(signatures@)),
    {
        proof {
            use_type_invariant(&*self);
        }
        let mut sum = self.bytes.clone();
        let mut i: usize = 0;
        assert(encodings(signatures@).take(0) =~= Seq::<Seq<u8>>::empty());
        while i < signatures.len()
            invariant
                i <= signatures@.len(),
                sum@.len() == signature_size(KEYS_IN_G1),
                sum@ == point_total(
                    !KEYS_IN_G1,
                    old(self)@,
                    encodings(signatures@).take(i as int),
                ),
            decreases signatures@.len() - i,
        {
            sum = add_points(!KEYS_IN_G1, sum.as_slice(), signatures[i].as_bytes());
            proof {
                lemma_total_step(!KEYS_IN_G1, old(self)@, encodings(signatures@), i as int);
            }
            i += 1;
        }
        assert(encodings(signatures@).take(signatures@.len() as int) =~= encodings(signatures@));
        self.bytes = sum;
    }

    /// Checks `e(-g, signature) * e(pk, H(message)) = 1` in one evaluation.
    pub fn verify(&self, message: &[u8], pk: &PublicKey<KEYS_IN_G1>, g: &Generator<KEYS_IN_G1>) -> (ok:
        bool)
        ensures
            ok == verifies(KEYS_IN_G1, self@, message@, pk@, g@),
    {
        proof {
            use_type_invariant(self);
        }
        let hash = hash_to_point(!KEYS_IN_G1, message);
        let neg_g = negate_point(KEYS_IN_G1, g.as_bytes());
        pair_is_one(
            KEYS_IN_G1,
            neg_g.as_slice(),
            self.bytes.as_slice(),
            pk.as_bytes(),
            hash.as_slice(),
        )
    }

    /// Checks a combined signature against messages and their keys. It is
    /// false as soon as two messages hash to the same element; else it is
    /// the verdict of one pairing product.
    pub fn verify_multi(
        &self,
        inputs: &[(&[u8], &PublicKey<KEYS_IN_G1>)],
        g: &Generator<KEYS_IN_G1>,
    ) -> (ok: bool)
        ensures
            ok == verifies_multi(KEYS_IN_G1, self@, signed_inputs(inputs@), g@),
    {
        proof {
            use_type_invariant(self);
        }
        let ghost views = signed_inputs(inputs@);
        let ghost all_hashes = message_hashes(KEYS_IN_G1, views);
        let mut hashes: Vec<Vec<u8>> = Vec::new();
        let mut pairs: Vec<(Vec<u8>, Vec<u8>)> = Vec::new();
        let mut i: usize = 0;
        while i < inputs.len()
            invariant
                i <= inputs@.len(),
                views == signed_inputs(inputs@),
                all_hashes == message_hashes(KEYS_IN_G1, views),
                hashes@.len() == i,
                forall|j: int| 0 <= j < i ==> (#[trigger] hashes@[j])@ == all_hashes[j],
                forall|j: int, k: int| 0 <= j < k < i ==> all_hashes[j] != all_hashes[k],
                pairs@.len() == i,
                pairs_decodable(pair_views(pairs@)),
                forall|j: int|
                    0 <= j < i ==> (#[trigger] pair_views(pairs@)[j]) == oriented(
                        KEYS_IN_G1,
                        views[j].1,
                        all_hashes[j],
                    ),
            decreases inputs@.len() - i,
        {
            let message: &[u8] = inputs[i].0;
            let pk: &PublicKey<KEYS_IN_G1> = inputs[i].1;
            assert(views[i as int] == (message@, pk@));
            let hash = hash_to_point(!KEYS_IN_G1, message);
            if contains_bytes(&hashes, hash.as_slice()) {
                proof {
                    let j = choose|j: int| 0 <= j < hashes@.len() && (#[trigger] hashes@[j])@ == hash@;
                    assert(all_hashes[j] == all_hashes[i as int]);
                }
                return false;
            }
            let ghost before = pairs@;
            let ghost hashes_before = hashes@;
            pairs.push(orient(KEYS_IN_G1, pk.to_bytes(), hash.clone()));
            hashes.push(hash);
            proof {
                assert forall|j: int| 0 <= j < i + 1 implies (#[trigger] hashes@[j])@
                    == all_hashes[j] by {
                    if j < i {
                        assert(hashes@[j] == hashes_before[j]);
                    }
                }
                assert forall|j: int, k: int| 0 <= j < k < i + 1 implies all_hashes[j]
                    != all_hashes[k] by {
                    if k == i {
                        assert(hashes_before[j]@ == all_hashes[j]);
                    }
                }
                assert forall|j: int| 0 <= j < i + 1 implies (#[trigger] pair_views(pairs@)[j])
                    == oriented(KEYS_IN_G1, views[j].1, all_hashes[j]) by {
                    if j < i {
                        assert(pair_views(pairs@)[j] == pair_views(before)[j]);
                    }
                }
                assert forall|j: int| 0 <= j < pairs@.len() implies (#[trigger] pair_views(
                    pairs@,
                )[j]).0.len() == point_size(true) && pair_views(pairs@)[j].1.len() == point_size(
                    false,
                ) by {
                    if j < i {
                        assert(pair_views(pairs@)[j] == pair_views(before)[j]);
                    }
                }
            }
            i += 1;
        }
        let neg_g = negate_point(KEYS_IN_G1, g.as_bytes());
        let ghost before = pairs@;
        pairs.push(orient(KEYS_IN_G1, neg_g, self.bytes.clone()));
        proof {
            assert forall|j: int| 0 <= j < pairs@.len() implies (#[trigger] pair_views(
                pairs@,
            )[j]).0.len() == point_size(true) && pair_views(pairs@)[j].1.len() == point_size(
                false,
            ) by {
                if j < before.len() {
                    assert(pair_views(pairs@)[j] == pair_views(before)[j]);
                }
            }
            assert forall|j: int| 0 <= j < before.len() implies pair_views(pairs@)[j]
                == multi_pairs(KEYS_IN_G1, self@, views, g@)[j] by {
                assert(pair_views(pairs@)[j] == pair_views(before)[j]);
            }
            assert(pair_views(pairs@) =~= multi_pairs(KEYS_IN_G1, self@, views, g@));
            assert(all_hashes.no_duplicates());
        }
        pairing_product_is_one(&pairs)
    }

    /// Checks many signed messages in one pairing product, each input scaled
    /// by a scalar drawn here, after the inputs are fixed, from the outside
    /// crate's secure random source. The verdict is that of
    /// `batch_verify_with` under the scalars drawn.
    pub fn batch_verify(
        inputs: &[(&[u8], &Signature<KEYS_IN_G1>, &PublicKey<KEYS_IN_G1>)],
        g: &Generator<KEYS_IN_G1>,
    ) -> (ok: bool)
        ensures
            exists|exponents: Seq<Seq<u8>>|
                are_exponents(exponents, inputs@.len() as nat) && ok == #[trigger] batch_verifies(
                    KEYS_IN_G1,
                    signature_triples(inputs@),
                    exponents,
                    g@,
                ),
    {
        let exponents = draw_exponents(inputs.len());
        let ok = Self::batch_verify_with(inputs, exponents.as_slice(), g);
        ok
    }

    /// Checks many signed messages in one pairing product, input `j` scaled
    /// by `exponents[j]`. A forger must not know the exponents before the
    /// inputs are fixed.
    pub fn batch_verify_with(
        inputs: &[(&[u8], &Signature<KEYS_IN_G1>, &PublicKey<KEYS_IN_G1>)],
        exponents: &[PrivateKey],
        g: &Generator<KEYS_IN_G1>,
    ) -> (ok: bool)
        requires
            exponents@.len() == inputs@.len(),
        ensures
            ok == batch_verifies(
                KEYS_IN_G1,
                signature_triples(inputs@),
                encodings(exponents@),
                g@,
            ),
            are_exponents(encodings(exponents@), inputs@.len() as nat),
    {
        let mut triples: Vec<(Vec<u8>, Vec<u8>, Vec<u8>)> = Vec::new();
        let mut i: usize = 0;
        while i < inputs.len()
            invariant
                i <= inputs@.len(),
                triples@.len() == i,
                triples_sized(KEYS_IN_G1, triple_views(triples@)),
                forall|j: int|
                    0 <= j < i ==> (#[trigger] triple_views(triples@)[j]) == signature_triples(
                        inputs@,
                    )[j],
            decreases inputs@.len() - i,
        {
            let ghost before = triples@;
            let message: &[u8] = inputs[i].0;
            triples.push((slice_to_vec(message), inputs[i].1.to_bytes(), inputs[i].2.to_bytes()));
            proof {
                assert forall|j: int| 0 <= j < i + 1 implies (#[trigger] triple_views(
                    triples@,
                )[j]) == signature_triples(inputs@)[j] by {
                    if j < i {
                        assert(triple_views(triples@)[j] == triple_views(before)[j]);
                    }
                }
                assert forall|j: int| 0 <= j < triples@.len() implies (#[trigger] triple_views(
                    triples@,
                )[j]).1.len() == signature_size(KEYS_IN_G1) && triple_views(triples@)[j].2.len()
                    == key_size(KEYS_IN_G1) by {
                    if j < i {
                        assert(triple_views(triples@)[j] == triple_views(before)[j]);
                    }
                }
            }
            i += 1;
        }
        assert(triple_views(triples@) =~= signature_triples(inputs@));
        batch_check(KEYS_IN_G1, &triples, exponents, g.as_bytes())
    }

    /// The bytes of the signature.
    pub fn to_bytes(&self) -> (bytes: Vec<u8>)
        ensures
            bytes@ == self@,
            bytes@.len() == signature_size(KEYS_IN_G1),
    {
        proof {
            use_type_invariant(self);
        }
        self.bytes.clone()
    }

    /// Decodes a signature; what is not the encoding of an element of prime
    /// order of the signature group is a parse error.
    pub fn from_bytes(bytes: &[u8]) -> (r: Result<Self, CryptoError>)
        ensures
            match r {
                Ok(signature) => decoded_point(!KEYS_IN_G1, bytes@) == Some(signature@),
                Err(e) => rejects(!KEYS_IN_G1, bytes@, e),
            },
    {
        match decode_point(!KEYS_IN_G1, bytes) {
            Ok(point) => Ok(Signature { bytes: point }),
            Err(e) => Err(e),
        }
    }

    /// The encoding, borrowed.
    pub(crate) fn as_bytes(&self) -> (bytes: &[u8])
        ensures
            bytes@ == self@,
            bytes@.len() == signature_size(KEYS_IN_G1),
    {
        proof {
            use_type_invariant(self);
        }
        self.bytes.as_slice()
    }
}

/// The plain sum of signatures. Whether it means anything is up to its
/// maker: the signatures are mitigated ones over one ordered key list, or
/// their signers have proved possession of their keys.
#[derive(Debug)]
pub struct AggregatedSignature<const KEYS_IN_G1: bool> {
    bytes: Vec<u8>,
}

impl<const KEYS_IN_G1: bool> View for AggregatedSignature<KEYS_IN_G1> {
    type V = Seq<u8>;

    closed spec fn view(&self) -> Seq<u8> {
        self.bytes@
    }
}

impl<const KEYS_IN_G1: bool> Clone for AggregatedSignature<KEYS_IN_G1> {
    fn clone(&self) -> (copy: Self)
        ensures
            copy@ == self@,
    {
        proof {
            use_type_invariant(self);
        }
        AggregatedSignature { bytes: self.bytes.clone() }
    }
}

impl<const KEYS_IN_G1: bool> AggregatedSignature<KEYS_IN_G1> {
    #[verifier::type_invariant]
    spec fn well_formed(&self) -> bool {
        self.bytes@.len() == signature_size(KEYS_IN_G1)
    }

    /// The sum of the signatures, from the identity.
    pub fn new(signatures: &[Signature<KEYS_IN_G1>]) -> (aggregate: Self)
        ensures
            aggregate@ == aggregated_signature_of(KEYS_IN_G1, encodings(signatures@)),
    {
        let mut sum = identity_point(!KEYS_IN_G1);
        let mut i: usize = 0;
        assert(encodings(signatures@).take(0) =~= Seq::<Seq<u8>>::empty());
        while i < signatures.len()
            invariant
                i <= signatures@.len(),
                sum@.len() == signature_size(KEYS_IN_G1),
                sum@ == point_total(
                    !KEYS_IN_G1,
                    point_identity(!KEYS_IN_G1),
                    encodings(signatures@).take(i as int),
                ),
            decreases signatures@.len() - i,
        {
            sum = add_points(!KEYS_IN_G1, sum.as_slice(), signatures[i].as_bytes());
            proof {
                lemma_total_step(
                    !KEYS_IN_G1,
                    point_identity(!KEYS_IN_G1),
                    encodings(signatures@),
                    i as int,
                );
            }
            i += 1;
        }
        assert(encodings(signatures@).take(signatures@.len() as int) =~= encodings(signatures@));
        AggregatedSignature { bytes: sum }
    }

    /// Checks `e(-g, signature) * e(pk, H(message)) = 1` against the
    /// weighted key.
    pub fn verify(
        &self,
        message: &[u8],
        pk: &AggregatedPublicKey<KEYS_IN_G1>,
        g: &Generator<KEYS_IN_G1>,
    ) -> (ok: bool)
        ensures
            ok == verifies(KEYS_IN_G1, self@, message@, pk@, g@),
    {
        proof {
            use_type_invariant(self);
        }
        let hash = hash_to_point(!KEYS_IN_G1, message);
        let neg_g = negate_point(KEYS_IN_G1, g.as_bytes());
        pair_is_one(
            KEYS_IN_G1,
            neg_g.as_slice(),
            self.bytes.as_slice(),
            pk.as_bytes(),
            hash.as_slice(),
        )
    }

    /// Checks against the plain, unweighted sum of `pks`, made here. This
    /// gives no defence against rogue keys and is for callers who have one
    /// of their own.
    pub fn verify_no_rk(
        &self,
        message: &[u8],
        pks: &[PublicKey<KEYS_IN_G1>],
        g: &Generator<KEYS_IN_G1>,
    ) -> (ok: bool)
        ensures
            ok == verifies(
                KEYS_IN_G1,
                self@,
                message@,
                summed_key_of(KEYS_IN_G1, encodings(pks@)),
                g@,
            ),
    {
        proof {
            use_type_invariant(self);
        }
        let mut apk = identity_point(KEYS_IN_G1);
        let mut i: usize = 0;
        assert(encodings(pks@).take(0) =~= Seq::<Seq<u8>>::empty());
        while i < pks.len()
            invariant
                i <= pks@.len(),
                apk@.len() == key_size(KEYS_IN_G1),
                apk@ == point_total(
                    KEYS_IN_G1,
                    point_identity(KEYS_IN_G1),
                    encodings(pks@).take(i as int),
                ),
            decreases pks@.len() - i,
        {
            apk = add_points(KEYS_IN_G1, apk.as_slice(), pks[i].as_bytes());
            proof {
                lemma_total_step(
                    KEYS_IN_G1,
                    point_identity(KEYS_IN_G1),
                    encodings(pks@),
                    i as int,
                );
            }
            i += 1;
        }
        assert(encodings(pks@).take(pks@.len() as int) =~= encodings(pks@));
        let hash = hash_to_point(!KEYS_IN_G1, message);
        let neg_g = negate_point(KEYS_IN_G1, g.as_bytes());
        pair_is_one(
            KEYS_IN_G1,
            neg_g.as_slice(),
            self.bytes.as_slice(),
            apk.as_slice(),
            hash.as_slice(),
        )
    }

    /// Checks many aggregated signatures in one pairing product, each input
    /// scaled by a scalar drawn here, after the inputs are fixed, from the
    /// outside crate's secure random source. The verdict is that of
    /// `batch_verify_with` under the scalars drawn.
    pub fn batch_verify(
        inputs: &[(&[u8], &AggregatedSignature<KEYS_IN_G1>, &AggregatedPublicKey<KEYS_IN_G1>)],
        g: &Generator<KEYS_IN_G1>,
    ) -> (ok: bool)
        ensures
            exists|exponents: Seq<Seq<u8>>|
                are_exponents(exponents, inputs@.len() as nat) && ok == #[trigger] batch_verifies(
                    KEYS_IN_G1,
                    aggregate_triples(inputs@),
                    exponents,
                    g@,
                ),
    {
        let exponents = draw_exponents(inputs.len());
        let ok = Self::batch_verify_with(inputs, exponents.as_slice(), g);
        ok
    }

    /// Checks many aggregated signatures in one pairing product, input `j`
    /// scaled by `exponents[j]`. A forger must not know the exponents before
    /// the inputs are fixed.
    pub fn batch_verify_with(
        inputs: &[(&[u8], &AggregatedSignature<KEYS_IN_G1>, &AggregatedPublicKey<KEYS_IN_G1>)],
        exponents: &[PrivateKey],
        g: &Generator<KEYS_IN_G1>,
    ) -> (ok: bool)
        requires
            exponents@.len() == inputs@.len(),
        ensures
            ok == batch_verifies(
                KEYS_IN_G1,
                aggregate_triples(inputs@),
                encodings(exponents@),
                g@,
            ),
            are_exponents(encodings(exponents@), inputs@.len() as nat),
    {
        let mut triples: Vec<(Vec<u8>, Vec<u8>, Vec<u8>)> = Vec::new();
        let mut i: usize = 0;
        while i < inputs.len()
            invariant
                i <= inputs@.len(),
                triples@.len() == i,
                triples_sized(KEYS_IN_G1, triple_views(triples@)),
                forall|j: int|
                    0 <= j < i ==> (#[trigger] triple_views(triples@)[j]) == aggregate_triples(
                        inputs@,
                    )[j],
            decreases inputs@.len() - i,
        {
            let ghost before = triples@;
            let message: &[u8] = inputs[i].0;
            triples.push((slice_to_vec(message), inputs[i].1.to_bytes(), inputs[i].2.to_bytes()));
            proof {
                assert forall|j: int| 0 <= j < i + 1 implies (#[trigger] triple_views(
                    triples@,
                )[j]) == aggregate_triples(inputs@)[j] by {
                    if j < i {
                        assert(triple_views(triples@)[j] == triple_views(before)[j]);
                    }
                }
                assert forall|j: int| 0 <= j < triples@.len() implies (#[trigger] triple_views(
                    triples@,
                )[j]).1.len() == signature_size(KEYS_IN_G1) && triple_views(triples@)[j].2.len()
                    == key_size(KEYS_IN_G1) by {
                    if j < i {
                        assert(triple_views(triples@)[j] == triple_views(before)[j]);
                    }
                }
            }
            i += 1;
        }
        assert(triple_views(triples@) =~= aggregate_triples(inputs@));
        batch_check(KEYS_IN_G1, &triples, exponents, g.as_bytes())
    }

    /// The bytes of the aggregated signature.
    pub fn to_bytes(&self) -> (bytes: Vec<u8>)
        ensures
            bytes@ == self@,
            bytes@.len() == signature_size(KEYS_IN_G1),
    {
        proof {
            use_type_invariant(self);
        }
        self.bytes.clone()
    }

    /// Decodes an aggregated signature; what is not the encoding of an
    /// element of prime order of the signature group is a parse error.
    pub fn from_bytes(bytes: &[u8]) -> (r: Result<Self, CryptoError>)
        ensures
            match r {
                Ok(aggregate) => decoded_point(!KEYS_IN_G1, bytes@) == Some(aggregate@),
                Err(e) => rejects(!KEYS_IN_G1, bytes@, e),
            },
    {
        match decode_point(!KEYS_IN_G1, bytes) {
            Ok(point) => Ok(AggregatedSignature { bytes: point }),
            Err(e) => Err(e),
        }
    }
}

} // verus!
