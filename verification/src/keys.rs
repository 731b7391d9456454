//! Private keys, generators, public keys and aggregated public keys.
//!
//! Each value holds its encoding. The constant parameter `KEYS_IN_G1` of a
//! type is its configuration: `true` puts public keys in G1, `false` in G2.

use crate::codec::{decode_point, decode_scalar};
use crate::curve::{hash_to_scalar, random_scalar, SCALAR_SIZE};
use crate::error::CryptoError;
use crate::group::{
    add_points, identity_point, lemma_total_step, multiply_point, point_identity, point_total,
};
use crate::scheme::{
    aggregated_key_of, coefficient, combined_key_of, decoded_point, decoded_scalar, encodings,
    is_scalar_encoding, key_size, public_key_of, rejects, weighted_keys,
};
use vstd::prelude::*;

verus! {

/// A private key: a scalar below the group order.
#[derive(Debug)]
pub struct PrivateKey {
    bytes: Vec<u8>,
}

impl View for PrivateKey {
    type V = Seq<u8>;

    closed spec fn view(&self) -> Seq<u8> {
        self.bytes@
    }
}

impl Clone for PrivateKey {
    fn clone(&self) -> (copy: Self)
        ensures
            copy@ == self@,
    {
        proof {
            use_type_invariant(self);
        }
        PrivateKey { bytes: self.bytes.clone() }
    }
}

impl PrivateKey {
    #[verifier::type_invariant]
    spec fn well_formed(&self) -> bool {
        is_scalar_encoding(self.bytes@)
    }

    /// Draws a private key from the outside crate's secure random source.
    pub fn random() -> (sk: Self)
        ensures
            is_scalar_encoding(sk@),
    {
        PrivateKey { bytes: random_scalar() }
    }

    /// The 48 bytes of the key; decoding them gives the key back.
    pub fn to_bytes(&self) -> (bytes: Vec<u8>)
        ensures
            bytes@ == self@,
            bytes@.len() == SCALAR_SIZE,
            decoded_scalar(bytes@) == Some(self@),
    {
        proof {
            use_type_invariant(self);
        }
        self.bytes.clone()
    }

    /// Decodes a private key from any 48 bytes, reducing the number they
    /// spell modulo the group order. Another length is a parse error.
    pub fn from_bytes(bytes: &[u8]) -> (r: Result<Self, CryptoError>)
        ensures
            match r {
                Ok(sk) => decoded_scalar(bytes@) == Some(sk@),
                Err(e) => decoded_scalar(bytes@) is None && e is ParseError,
            },
    {
        match decode_scalar(bytes) {
            Ok(scalar) => Ok(PrivateKey { bytes: scalar }),
            Err(e) => Err(e),
        }
    }

    /// The encoding, borrowed.
    pub(crate) fn as_bytes(&self) -> (bytes: &[u8])
        ensures
            bytes@ == self@,
            is_scalar_encoding(bytes@),
    {
        proof {
            use_type_invariant(self);
        }
        self.bytes.as_slice()
    }
}

/// The base point of the group that holds public keys.
#[derive(Debug)]
pub struct Generator<const KEYS_IN_G1: bool> {
    bytes: Vec<u8>,
}

impl<const KEYS_IN_G1: bool> View for Generator<KEYS_IN_G1> {
    type V = Seq<u8>;

    closed spec fn view(&self) -> Seq<u8> {
        self.bytes@
    }
}

impl<const KEYS_IN_G1: bool> Clone for Generator<KEYS_IN_G1> {
    fn clone(&self) -> (copy: Self)
        ensures
            copy@ == self@,
    {
        proof {
            use_type_invariant(self);
        }
        Generator { bytes: self.bytes.clone() }
    }
}

impl<const KEYS_IN_G1: bool> Generator<KEYS_IN_G1> {
    #[verifier::type_invariant]
    spec fn well_formed(&self) -> bool {
        self.bytes@.len() == key_size(KEYS_IN_G1)
    }

    /// The bytes of the generator.
    pub fn to_bytes(&self) -> (bytes: Vec<u8>)
        ensures
            bytes@ == self@,
            bytes@.len() == key_size(KEYS_IN_G1),
    {
        proof {
            use_type_invariant(self);
        }
        self.bytes.clone()
    }

    /// Decodes a generator; what is not the encoding of an element of prime
    /// order of the key group is a parse error.
    pub fn from_bytes(bytes: &[u8]) -> (r: Result<Self, CryptoError>)
        ensures
            match r {
                Ok(g) => decoded_point(KEYS_IN_G1, bytes@) == Some(g@),
                Err(e) => rejects(KEYS_IN_G1, bytes@, e),
            },
    {
        match decode_point(KEYS_IN_G1, bytes) {
            Ok(point) => Ok(Generator { bytes: point }),
            Err(e) => Err(e),
        }
    }

    /// The encoding, borrowed.
    pub(crate) fn as_bytes(&self) -> (bytes: &[u8])
        ensures
            bytes@ == self@,
            bytes@.len() == key_size(KEYS_IN_G1),
    {
        proof {
            use_type_invariant(self);
        }
        self.bytes.as_slice()
    }
}

/// A public key: the generator times the private key.
#[derive(Debug)]
pub struct PublicKey<const KEYS_IN_G1: bool> {
    bytes: Vec<u8>,
}

impl<const KEYS_IN_G1: bool> View for PublicKey<KEYS_IN_G1> {
    type V = Seq<u8>;

    closed spec fn view(&self) -> Seq<u8> {
        self.bytes@
    }
}

impl<const KEYS_IN_G1: bool> Clone for PublicKey<KEYS_IN_G1> {
    fn clone(&self) -> (copy: Self)
        ensures
            copy@ == self@,
    {
        proof {
            use_type_invariant(self);
        }
        PublicKey { bytes: self.bytes.clone() }
    }
}

impl<const KEYS_IN_G1: bool> PublicKey<KEYS_IN_G1> {
    #[verifier::type_invariant]
    spec fn well_formed(&self) -> bool {
        self.bytes@.len() == key_size(KEYS_IN_G1)
    }

    /// The public key of `sk` under the generator `g`.
    pub fn new(sk: &PrivateKey, g: &Generator<KEYS_IN_G1>) -> (pk: Self)
        ensures
            pk@ == public_key_of(KEYS_IN_G1, sk@, g@),
    {
        PublicKey { bytes: multiply_point(KEYS_IN_G1, g.as_bytes(), sk.as_bytes()) }
    }

    /// Adds `pks` to this key, one by one, with no weights: a combined key
    /// without defence against rogue keys.
    pub fn combine(&mut self, pks: &[PublicKey<KEYS_IN_G1>])
        ensures
            final(self)@ == combined_key_of(KEYS_IN_G1, old(self)@, encodings(pks@)),
    {
        proof {
            use_type_invariant(&*self);
        }
        let mut sum = self.bytes.clone();
        let mut i: usize = 0;
        assert(encodings(pks@).take(0) =~= Seq::<Seq<u8>>::empty());
        while i < pks.len()
            invariant
                i <= pks@.len(),
                sum@.len() == key_size(KEYS_IN_G1),
                sum@ == point_total(KEYS_IN_G1, old(self)@, encodings(pks@).take(i as int)),
            decreases pks@.len() - i,
        {
            sum = add_points(KEYS_IN_G1, sum.as_slice(), pks[i].as_bytes());
            proof {
                lemma_total_step(KEYS_IN_G1, old(self)@, encodings(pks@), i as int);
            }
            i += 1;
        }
        assert(encodings(pks@).take(pks@.len() as int) =~= encodings(pks@));
        self.bytes = sum;
    }

    /// The bytes of the key.
    pub fn to_bytes(&self) -> (bytes: Vec<u8>)
        ensures
            bytes@ == self@,
            bytes@.len() == key_size(KEYS_IN_G1),
    {
        proof {
            use_type_invariant(self);
        }
        self.bytes.clone()
    }

    /// Decodes a public key; what is not the encoding of an element of prime
    /// order of the key group is a parse error.
    pub fn from_bytes(bytes: &[u8]) -> (r: Result<Self, CryptoError>)
        ensures
            match r {
                Ok(pk) => decoded_point(KEYS_IN_G1, bytes@) == Some(pk@),
                Err(e) => rejects(KEYS_IN_G1, bytes@, e),
            },
    {
        match decode_point(KEYS_IN_G1, bytes) {
            Ok(point) => Ok(PublicKey { bytes: point }),
            Err(e) => Err(e),
        }
    }

    /// The encoding, borrowed.
    pub(crate) fn as_bytes(&self) -> (bytes: &[u8])
        ensures
            bytes@ == self@,
            bytes@.len() == key_size(KEYS_IN_G1),
    {
        proof {
            use_type_invariant(self);
        }
        self.bytes.as_slice()
    }
}

/// The encodings of all keys, one after the other in their order.
pub(crate) fn joined_keys<const KEYS_IN_G1: bool>(pks: &[PublicKey<KEYS_IN_G1>]) -> (bytes: Vec<
    u8,
>)
    ensures
        bytes@ == encodings(pks@).flatten(),
{
    let mut bytes: Vec<u8> = Vec::new();
    let mut i: usize = 0;
    assert(encodings(pks@).take(0) =~= Seq::<Seq<u8>>::empty());
    while i < pks.len()
        invariant
            i <= pks@.len(),
            bytes@ == encodings(pks@).take(i as int).flatten(),
        decreases pks@.len() - i,
    {
        let ghost before = bytes@;
        bytes.extend_from_slice(pks[i].as_bytes());
        proof {
            let done = encodings(pks@).take(i as int);
            assert(bytes@ =~= before + pks@[i as int]@);
            assert(encodings(pks@).take(i + 1) =~= done.push(pks@[i as int]@));
            done.lemma_flatten_push(pks@[i as int]@);
        }
        i += 1;
    }
    assert(encodings(pks@).take(pks@.len() as int) =~= encodings(pks@));
    bytes
}

/// The coefficient of signer `i`, from the joined encodings of all keys.
pub(crate) fn coefficient_of<const KEYS_IN_G1: bool>(
    joined: &Vec<u8>,
    pks: &[PublicKey<KEYS_IN_G1>],
    i: usize,
) -> (t: Vec<u8>)
    requires
        i < pks@.len(),
        joined@ == encodings(pks@).flatten(),
    ensures
        t@ == coefficient(encodings(pks@), i as int),
        t@.len() == SCALAR_SIZE,
{
    let mut input = joined.clone();
    let ghost before = input@;
    input.extend_from_slice(pks[i].as_bytes());
    assert(input@ =~= before + pks@[i as int]@);
    hash_to_scalar(input.as_slice())
}

/// A public key for a set of signers that a rogue key cannot bend: each key
/// is weighed by a coefficient that depends on the whole ordered set.
#[derive(Debug)]
pub struct AggregatedPublicKey<const KEYS_IN_G1: bool> {
    bytes: Vec<u8>,
}

impl<const KEYS_IN_G1: bool> View for AggregatedPublicKey<KEYS_IN_G1> {
    type V = Seq<u8>;

    closed spec fn view(&self) -> Seq<u8> {
        self.bytes@
    }
}

impl<const KEYS_IN_G1: bool> Clone for AggregatedPublicKey<KEYS_IN_G1> {
    fn clone(&self) -> (copy: Self)
        ensures
            copy@ == self@,
    {
        proof {
            use_type_invariant(self);
        }
        AggregatedPublicKey { bytes: self.bytes.clone() }
    }
}

impl<const KEYS_IN_G1: bool> AggregatedPublicKey<KEYS_IN_G1> {
    #[verifier::type_invariant]
    spec fn well_formed(&self) -> bool {
        self.bytes@.len() == key_size(KEYS_IN_G1)
    }

    /// The sum of every key times its coefficient, from the identity. The
    /// coefficients are computed anew from the whole list, so another order
    /// or another subset gives another key.
    pub fn new(keys: &[PublicKey<KEYS_IN_G1>]) -> (apk: Self)
        ensures
            apk@ == aggregated_key_of(KEYS_IN_G1, encodings(keys@)),
    {
        let joined = joined_keys(keys);
        let mut sum = identity_point(KEYS_IN_G1);
        let mut i: usize = 0;
        let ghost weighted = weighted_keys(KEYS_IN_G1, encodings(keys@));
        assert(weighted.take(0) =~= Seq::<Seq<u8>>::empty());
        while i < keys.len()
            invariant
                i <= keys@.len(),
                joined@ == encodings(keys@).flatten(),
                weighted == weighted_keys(KEYS_IN_G1, encodings(keys@)),
                sum@.len() == key_size(KEYS_IN_G1),
                sum@ == point_total(
                    KEYS_IN_G1,
                    point_identity(KEYS_IN_G1),
                    weighted.take(i as int),
                ),
            decreases keys@.len() - i,
        {
            let t = coefficient_of(&joined, keys, i);
            let term = multiply_point(KEYS_IN_G1, keys[i].as_bytes(), t.as_slice());
            sum = add_points(KEYS_IN_G1, sum.as_slice(), term.as_slice());
            proof {
                lemma_total_step(KEYS_IN_G1, point_identity(KEYS_IN_G1), weighted, i as int);
            }
            i += 1;
        }
        assert(weighted.take(keys@.len() as int) =~= weighted);
        AggregatedPublicKey { bytes: sum }
    }

    /// The bytes of the key.
    pub fn to_bytes(&self) -> (bytes: Vec<u8>)
        ensures
            bytes@ == self@,
            bytes@.len() == key_size(KEYS_IN_G1),
    {
        proof {
            use_type_invariant(self);
        }
        self.bytes.clone()
    }

    /// Decodes an aggregated public key; what is not the encoding of an
    /// element of prime order of the key group is a parse error.
    pub fn from_bytes(bytes: &[u8]) -> (r: Result<Self, CryptoError>)
        ensures
            match r {
                Ok(apk) => decoded_point(KEYS_IN_G1, bytes@) == Some(apk@),
                Err(e) => rejects(KEYS_IN_G1, bytes@, e),
            },
    {
        match decode_point(KEYS_IN_G1, bytes) {
            Ok(point) => Ok(AggregatedPublicKey { bytes: point }),
            Err(e) => Err(e),
        }
    }

    /// The encoding, borrowed.
    pub(crate) fn as_bytes(&self) -> (bytes: &[u8])
        ensures
            bytes@ == self@,
            bytes@.len() == key_size(KEYS_IN_G1),
    {
        proof {
            use_type_invariant(self);
        }
        self.bytes.as_slice()
    }
}

/// Makes a key pair: a private key drawn from the outside crate's secure
/// random source, and its public key under `g`.
pub fn generate<const KEYS_IN_G1: bool>(g: &Generator<KEYS_IN_G1>) -> (pair: (
    PublicKey<KEYS_IN_G1>,
    PrivateKey,
))
    ensures
        pair.0@ == public_key_of(KEYS_IN_G1, pair.1@, g@),
        is_scalar_encoding(pair.1@),
{
    let sk = PrivateKey::random();
    let pk = PublicKey::new(&sk, g);
    (pk, sk)
}

} // verus!
