use amcl_wrapper::field_elem::FieldElement;
use amcl_wrapper::group_elem::GroupElement;
use amcl_wrapper::group_elem_g1::G1;
use amcl_wrapper::group_elem_g2::G2;
use ursa_bls::normal::{
    generate, AggregatedPublicKey, AggregatedSignature, Generator, PublicKey, Signature,
};
use ursa_bls::PrivateKey;

const MESSAGE_1: &[u8; 22] = b"This is a test message";
const MESSAGE_2: &[u8; 20] = b"Another test message";

fn generator() -> Generator {
    Generator::from_bytes(&G1::generator().to_bytes()).unwrap()
}

fn random_message() -> Vec<u8> {
    FieldElement::random().to_bytes()
}

#[test]
fn signature_verification_normal() {
    let g = generator();
    let (pk, sk) = generate(&g);

    let signature_1 = Signature::new(&MESSAGE_1[..], &sk);
    assert!(signature_1.verify(&MESSAGE_1[..], &pk, &g));

    let signature_2 = Signature::new(&MESSAGE_2[..], &sk);
    assert!(signature_2.verify(&MESSAGE_2[..], &pk, &g));

    // Should fail for different messages
    assert!(!signature_1.verify(&MESSAGE_2[..], &pk, &g));
    assert!(!signature_2.verify(&MESSAGE_1[..], &pk, &g));
}

#[test]
fn signature_fails_under_another_key_normal() {
    let g = generator();
    let (_, sk) = generate(&g);
    let (other_pk, _) = generate(&g);
    let signature = Signature::new(&MESSAGE_1[..], &sk);
    assert!(!signature.verify(&MESSAGE_1[..], &other_pk, &g));
}

#[test]
fn aggregate_signature_verification_rk_normal() {
    const KEY_COUNT: usize = 10;

    let g = generator();
    let mut pks = Vec::new();
    let mut sks = Vec::new();
    let mut asigs = Vec::new();
    for _ in 0..KEY_COUNT {
        let (pk, sk) = generate(&g);

        pks.push(pk);
        sks.push(sk);
    }

    for i in 0..KEY_COUNT {
        let sig = Signature::new_with_rk_mitigation(&MESSAGE_1[..], &sks[i], i, pks.as_slice());
        asigs.push(sig);
    }

    let apk = AggregatedPublicKey::new(pks.as_slice());
    let asg = AggregatedSignature::new(asigs.as_slice());
    assert!(asg.verify(&MESSAGE_1[..], &apk, &g));

    // Can't verify individually because of rogue key mitigation
    for i in 0..KEY_COUNT {
        assert!(!asigs[i].verify(&MESSAGE_1[..], &pks[i], &g));
    }
}

#[test]
fn mitigated_aggregate_depends_on_the_order_of_signers_normal() {
    let g = generator();
    let (pk_a, sk_a) = generate(&g);
    let (pk_b, sk_b) = generate(&g);
    let pks = vec![pk_a.clone(), pk_b.clone()];
    let swapped = vec![pk_b, pk_a];
    let sigs = vec![
        Signature::new_with_rk_mitigation(&MESSAGE_1[..], &sk_a, 0, pks.as_slice()),
        Signature::new_with_rk_mitigation(&MESSAGE_1[..], &sk_b, 1, pks.as_slice()),
    ];
    let asg = AggregatedSignature::new(sigs.as_slice());
    assert!(asg.verify(&MESSAGE_1[..], &AggregatedPublicKey::new(pks.as_slice()), &g));
    assert!(!asg.verify(&MESSAGE_1[..], &AggregatedPublicKey::new(swapped.as_slice()), &g));
    assert!(!asg.verify(&MESSAGE_1[..], &AggregatedPublicKey::new(&pks[..1]), &g));
}

#[test]
fn aggregate_signature_verification_no_rk_normal() {
    const KEY_COUNT: usize = 10;

    let g = generator();
    let mut pks = Vec::new();
    let mut sks = Vec::new();
    let mut sigs = Vec::new();
    for _ in 0..KEY_COUNT {
        let (pk, sk) = generate(&g);

        pks.push(pk);
        sks.push(sk);
    }

    for i in 0..KEY_COUNT {
        let sig = Signature::new(&MESSAGE_1[..], &sks[i]);
        sigs.push(sig);
    }

    let asg = AggregatedSignature::new(sigs.as_slice());
    assert!(asg.verify_no_rk(&MESSAGE_1[..], pks.as_slice(), &g));

    // Check that simple aggregation without rogue key mitigation fails
    let apk = AggregatedPublicKey::new(pks.as_slice());
    assert!(!asg.verify(&MESSAGE_1[..], &apk, &g));

    // Can verify individually because of no rogue key mitigation
    for i in 0..KEY_COUNT {
        assert!(sigs[i].verify(&MESSAGE_1[..], &pks[i], &g));
    }
}

#[test]
fn batch_signature_verification_normal() {
    const KEY_COUNT: usize = 10;
    const SIG_COUNT: usize = 5;

    // First batch verification with rogue key mitigation
    let g = generator();
    let mut groups_1 = Vec::new();
    for _ in 0..SIG_COUNT {
        let mut sks = Vec::new();
        let mut pks = Vec::new();
        let mut sigs = Vec::new();
        let msg = random_message();
        for _ in 0..KEY_COUNT {
            let (pk, sk) = generate(&g);
            pks.push(pk);
            sks.push(sk);
        }

        for i in 0..KEY_COUNT {
            let sig =
                Signature::new_with_rk_mitigation(msg.as_slice(), &sks[i], i, pks.as_slice());
            sigs.push(sig);
        }

        let asg = AggregatedSignature::new(sigs.as_slice());
        let apk = AggregatedPublicKey::new(pks.as_slice());
        //sanity check
        assert!(asg.verify(msg.as_slice(), &apk, &g));
        groups_1.push((msg, asg, apk));
    }

    let refs = groups_1
        .iter()
        .map(|(m, s, p)| (m.as_slice(), s, p))
        .collect::<Vec<(&[u8], &AggregatedSignature, &AggregatedPublicKey)>>();
    assert!(AggregatedSignature::batch_verify(refs.as_slice(), &g));

    // Second batch verification without rogue key mitigation
    let mut groups_2 = Vec::new();
    for _ in 0..SIG_COUNT {
        let mut sks = Vec::new();
        let mut pks = Vec::new();
        let mut sigs = Vec::new();
        let msg = random_message();
        for _ in 0..KEY_COUNT {
            let (pk, sk) = generate(&g);
            pks.push(pk);
            sks.push(sk);
        }

        for i in 0..KEY_COUNT {
            let sig = Signature::new(msg.as_slice(), &sks[i]);
            sigs.push(sig);
        }

        let mut asg = sigs[0].clone();
        asg.combine(&sigs[1..]);

        let mut apk = pks[0].clone();
        apk.combine(&pks[1..]);

        //sanity check
        assert!(asg.verify(msg.as_slice(), &apk, &g));
        groups_2.push((msg, asg, apk));
    }

    let refs = groups_2
        .iter()
        .map(|(m, s, p)| (m.as_slice(), s, p))
        .collect::<Vec<(&[u8], &Signature, &PublicKey)>>();
    assert!(Signature::batch_verify(refs.as_slice(), &g));
}

#[test]
fn batch_verification_fails_on_a_corrupted_signature_normal() {
    const SIG_COUNT: usize = 5;
    let g = generator();
    let mut groups = Vec::new();
    for _ in 0..SIG_COUNT {
        let msg = random_message();
        let (pk, sk) = generate(&g);
        let (pk_2, sk_2) = generate(&g);
        let pks = vec![pk, pk_2];
        let sigs = vec![
            Signature::new_with_rk_mitigation(msg.as_slice(), &sk, 0, pks.as_slice()),
            Signature::new_with_rk_mitigation(msg.as_slice(), &sk_2, 1, pks.as_slice()),
        ];
        groups.push((
            msg,
            AggregatedSignature::new(sigs.as_slice()),
            AggregatedPublicKey::new(pks.as_slice()),
        ));
    }
    let refs = groups
        .iter()
        .map(|(m, s, p)| (m.as_slice(), s, p))
        .collect::<Vec<(&[u8], &AggregatedSignature, &AggregatedPublicKey)>>();
    assert!(AggregatedSignature::batch_verify(refs.as_slice(), &g));

    // the signature of the third triple is replaced by that of the first
    let corrupted = groups[0].1.clone();
    let mut refs = refs;
    refs[2] = (groups[2].0.as_slice(), &corrupted, &groups[2].2);
    assert!(!AggregatedSignature::batch_verify(refs.as_slice(), &g));
}

#[test]
fn batch_verification_with_given_exponents_normal() {
    let g = generator();
    let (pk_1, sk_1) = generate(&g);
    let (pk_2, sk_2) = generate(&g);
    let sig_1 = Signature::new(&MESSAGE_1[..], &sk_1);
    let sig_2 = Signature::new(&MESSAGE_2[..], &sk_2);
    let exponents = vec![PrivateKey::random(), PrivateKey::random()];
    let good = vec![(&MESSAGE_1[..], &sig_1, &pk_1), (&MESSAGE_2[..], &sig_2, &pk_2)];
    assert!(Signature::batch_verify_with(good.as_slice(), exponents.as_slice(), &g));
    let bad = vec![(&MESSAGE_1[..], &sig_2, &pk_1), (&MESSAGE_2[..], &sig_1, &pk_2)];
    assert!(!Signature::batch_verify_with(bad.as_slice(), exponents.as_slice(), &g));
    let none: Vec<(&[u8], &Signature, &PublicKey)> = Vec::new();
    assert!(Signature::batch_verify_with(none.as_slice(), &[], &g));
    assert!(Signature::batch_verify(none.as_slice(), &g));
}

#[test]
fn multi_signature_verification_normal() {
    const KEY_COUNT: usize = 10;

    let g = generator();
    let mut pks = Vec::new();
    let mut sks = Vec::new();
    let mut sigs = Vec::new();
    let mut msgs = Vec::new();
    for _ in 0..KEY_COUNT {
        let (pk, sk) = generate(&g);

        let msg = random_message();
        let sig = Signature::new(msg.as_slice(), &sk);

        pks.push(pk);
        sks.push(sk);
        sigs.push(sig);
        msgs.push(msg);
    }
    let mut sig = sigs[0].clone();
    sig.combine(&sigs[1..]);
    let inputs = msgs
        .iter()
        .zip(pks.iter())
        .map(|(msg, pk)| (msg.as_slice(), pk))
        .collect::<Vec<(&[u8], &PublicKey)>>();

    assert!(sig.verify_multi(inputs.as_slice(), &g));
    msgs[0] = msgs[1].clone();
    let inputs = msgs
        .iter()
        .zip(pks.iter())
        .map(|(msg, pk)| (msg.as_slice(), pk))
        .collect::<Vec<(&[u8], &PublicKey)>>();
    assert!(!sig.verify_multi(inputs.as_slice(), &g));
}

#[test]
fn repeated_message_fails_even_where_the_product_would_hold_normal() {
    // two signers of the same message: the pairing product is the unit, and
    // only the repetition makes the verification fail
    let g = generator();
    let (pk_1, sk_1) = generate(&g);
    let (pk_2, sk_2) = generate(&g);
    let mut sig = Signature::new(&MESSAGE_1[..], &sk_1);
    sig.combine(&[Signature::new(&MESSAGE_1[..], &sk_2)]);
    let inputs = vec![(&MESSAGE_1[..], &pk_1), (&MESSAGE_1[..], &pk_2)];
    assert!(!sig.verify_multi(inputs.as_slice(), &g));
    let mut apk = pk_1.clone();
    apk.combine(&[pk_2.clone()]);
    assert!(sig.verify(&MESSAGE_1[..], &apk, &g));
}

#[test]
fn operations_agree_with_the_curve_library_normal() {
    let g_point = G1::generator();
    let g = generator();
    let sk = PrivateKey::random();
    let scalar = FieldElement::from_bytes(&sk.to_bytes()).unwrap();

    // multiplication in the key group
    let pk = PublicKey::new(&sk, &g);
    assert_eq!(pk.to_bytes(), (&g_point * &scalar).to_bytes());

    // hashing and multiplication in the signature group
    let hash = G2::from_msg_hash(&MESSAGE_1[..]);
    let signature = Signature::new(&MESSAGE_1[..], &sk);
    assert_eq!(signature.to_bytes(), (&hash * &scalar).to_bytes());
    assert_ne!(signature.to_bytes(), hash.to_bytes());

    // addition in both groups
    let other = Signature::new(&MESSAGE_2[..], &sk);
    let other_point = &G2::from_msg_hash(&MESSAGE_2[..]) * &scalar;
    let mut sum = signature.clone();
    sum.combine(&[other.clone()]);
    assert_eq!(sum.to_bytes(), (&(&hash * &scalar) + &other_point).to_bytes());
    let (pk_2, _) = generate(&g);
    let mut key_sum = pk.clone();
    key_sum.combine(&[pk_2.clone()]);
    let pk_2_point = G1::from_bytes(&pk_2.to_bytes()).unwrap();
    assert_eq!(key_sum.to_bytes(), (&(&g_point * &scalar) + &pk_2_point).to_bytes());

    // the sums from the identity
    let aggregate = AggregatedSignature::new(&[signature.clone(), other]);
    assert_eq!(
        aggregate.to_bytes(),
        (&(&G2::identity() + &(&hash * &scalar)) + &other_point).to_bytes()
    );
    assert_eq!(AggregatedSignature::new(&[]).to_bytes(), G2::identity().to_bytes());
    assert_eq!(AggregatedPublicKey::new(&[]).to_bytes(), G1::identity().to_bytes());
}

#[test]
fn coefficients_hash_all_keys_and_then_the_signer_normal() {
    let g = generator();
    let (pk_1, sk_1) = generate(&g);
    let (pk_2, _) = generate(&g);
    let pks = vec![pk_1.clone(), pk_2.clone()];

    let mut input = Vec::new();
    input.extend_from_slice(&pk_1.to_bytes());
    input.extend_from_slice(&pk_2.to_bytes());
    let mut input_1 = input.clone();
    input_1.extend_from_slice(&pk_1.to_bytes());
    let mut input_2 = input.clone();
    input_2.extend_from_slice(&pk_2.to_bytes());
    let t_1 = FieldElement::from_msg_hash(&input_1);
    let t_2 = FieldElement::from_msg_hash(&input_2);

    let scalar = FieldElement::from_bytes(&sk_1.to_bytes()).unwrap();
    let expected = &(&G2::from_msg_hash(&MESSAGE_1[..]) * &scalar) * &t_1;
    let signature = Signature::new_with_rk_mitigation(&MESSAGE_1[..], &sk_1, 0, pks.as_slice());
    assert_eq!(signature.to_bytes(), expected.to_bytes());

    let p_1 = G1::from_bytes(&pk_1.to_bytes()).unwrap();
    let p_2 = G1::from_bytes(&pk_2.to_bytes()).unwrap();
    let apk = &(&G1::identity() + &(&p_1 * &t_1)) + &(&p_2 * &t_2);
    assert_eq!(AggregatedPublicKey::new(pks.as_slice()).to_bytes(), apk.to_bytes());
}

#[test]
fn values_round_trip_through_their_bytes_normal() {
    let g = generator();
    assert_eq!(Generator::from_bytes(&g.to_bytes()).unwrap().to_bytes(), g.to_bytes());
    let (pk, sk) = generate(&g);
    assert_eq!(PublicKey::from_bytes(&pk.to_bytes()).unwrap().to_bytes(), pk.to_bytes());
    assert_eq!(PrivateKey::from_bytes(&sk.to_bytes()).unwrap().to_bytes(), sk.to_bytes());
    let signature = Signature::new(&MESSAGE_1[..], &sk);
    let decoded = Signature::from_bytes(&signature.to_bytes()).unwrap();
    assert_eq!(decoded.to_bytes(), signature.to_bytes());
    assert!(decoded.verify(&MESSAGE_1[..], &pk, &g));
    let pks = vec![pk];
    let apk = AggregatedPublicKey::new(pks.as_slice());
    assert_eq!(
        AggregatedPublicKey::from_bytes(&apk.to_bytes()).unwrap().to_bytes(),
        apk.to_bytes()
    );
    let asg = AggregatedSignature::new(&[signature]);
    assert_eq!(
        AggregatedSignature::from_bytes(&asg.to_bytes()).unwrap().to_bytes(),
        asg.to_bytes()
    );
    assert_eq!(pks[0].to_bytes().len(), ursa_bls::normal::PUBLIC_KEY_SIZE);
    assert_eq!(asg.to_bytes().len(), ursa_bls::normal::SIGNATURE_SIZE);
    assert_eq!(apk.to_bytes().len(), ursa_bls::normal::PUBLIC_KEY_SIZE);
}

#[test]
fn the_identity_round_trips_in_its_own_encoding_normal() {
    let identity = AggregatedSignature::new(&[]).to_bytes();
    assert_eq!(AggregatedSignature::from_bytes(&identity).unwrap().to_bytes(), identity);
    let identity = AggregatedPublicKey::new(&[]).to_bytes();
    assert_eq!(AggregatedPublicKey::from_bytes(&identity).unwrap().to_bytes(), identity);
}

#[test]
fn wrong_lengths_are_parse_errors_normal() {
    let g = generator();
    let (pk, sk) = generate(&g);
    let mut bytes = pk.to_bytes();
    bytes.pop();
    let e = PublicKey::from_bytes(&bytes).unwrap_err();
    assert!(e.message().contains("BytesIncorrectSize"), "{:?}", e);
    assert!(PublicKey::from_bytes(&[]).is_err());
    assert!(Generator::from_bytes(&bytes).is_err());
    assert!(AggregatedPublicKey::from_bytes(&bytes).is_err());
    let mut bytes = Signature::new(&MESSAGE_1[..], &sk).to_bytes();
    bytes.push(0);
    assert!(Signature::from_bytes(&bytes).is_err());
    assert!(AggregatedSignature::from_bytes(&bytes).is_err());
    // an encoded key is no signature
    assert!(Signature::from_bytes(&pk.to_bytes()).is_err());
}

#[test]
fn bytes_off_the_curve_are_parse_errors_normal() {
    let g = generator();
    let (pk, sk) = generate(&g);
    let mut bytes = pk.to_bytes();
    let last = bytes.len() - 1;
    bytes[last] ^= 1;
    let e = PublicKey::from_bytes(&bytes).unwrap_err();
    assert_eq!(e.message(), "bytes are not the encoding of a group element");
    let mut bytes = Signature::new(&MESSAGE_1[..], &sk).to_bytes();
    let last = bytes.len() - 1;
    bytes[last] ^= 1;
    let e = Signature::from_bytes(&bytes).unwrap_err();
    assert_eq!(e.message(), "bytes are not the encoding of a group element");
    let e = AggregatedSignature::from_bytes(&bytes).unwrap_err();
    assert_eq!(e.clone(), e);
}
