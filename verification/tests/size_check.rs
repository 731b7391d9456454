use amcl_wrapper::constants::{GroupG1_SIZE, MODBYTES};
use amcl_wrapper::field_elem::FieldElement;
use amcl_wrapper::group_elem::GroupElement;
use amcl_wrapper::group_elem_g1::G1;
use amcl_wrapper::group_elem_g2::G2;
use amcl_wrapper::types_g2::GroupG2_SIZE;
use ursa_bls::normal::{
    generate as normal_generate, Generator as NormalGenerator, Signature as NormalSignature,
};
use ursa_bls::small::{
    generate as small_generate, Generator as SmallGenerator, Signature as SmallSignature,
};

#[test]
fn size_check() {
    let msg = FieldElement::random();
    let g = NormalGenerator::from_bytes(&G1::generator().to_bytes()).unwrap();
    let (pk, sk) = normal_generate(&g);
    assert_eq!(sk.to_bytes().len(), MODBYTES);
    assert_eq!(pk.to_bytes().len(), GroupG1_SIZE);
    let sig = NormalSignature::new(msg.to_bytes().as_slice(), &sk);
    assert_eq!(sig.to_bytes().len(), GroupG2_SIZE);

    let g = SmallGenerator::from_bytes(&G2::generator().to_bytes()).unwrap();
    let (pk, sk) = small_generate(&g);
    assert_eq!(sk.to_bytes().len(), MODBYTES);
    assert_eq!(pk.to_bytes().len(), GroupG2_SIZE);
    let sig = SmallSignature::new(msg.to_bytes().as_slice(), &sk);
    assert_eq!(sig.to_bytes().len(), GroupG1_SIZE);
}

#[test]
fn size_constants_mirror_each_other() {
    assert_eq!(ursa_bls::PRIVATE_KEY_SIZE, MODBYTES);
    assert_eq!(ursa_bls::normal::PUBLIC_KEY_SIZE, GroupG1_SIZE);
    assert_eq!(ursa_bls::normal::SIGNATURE_SIZE, GroupG2_SIZE);
    assert_eq!(ursa_bls::small::PUBLIC_KEY_SIZE, GroupG2_SIZE);
    assert_eq!(ursa_bls::small::SIGNATURE_SIZE, GroupG1_SIZE);
    assert_eq!(ursa_bls::normal::PUBLIC_KEY_SIZE, ursa_bls::small::SIGNATURE_SIZE);
    assert_eq!(ursa_bls::normal::SIGNATURE_SIZE, ursa_bls::small::PUBLIC_KEY_SIZE);
    assert_eq!(ursa_bls::curve::SCALAR_SIZE, 48);
    assert_eq!(ursa_bls::curve::G1_SIZE, 97);
    assert_eq!(ursa_bls::curve::G2_SIZE, 192);
}
