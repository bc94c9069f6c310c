use ark_bls12_381::Fr as ArkFr;
use ark_ff::{FromBytes, ToConstraintField};
use arkworks_native_gadgets::poseidon::{sbox::PoseidonSbox, FieldHasher, Poseidon, PoseidonParameters};
use arkworks_utils::{bytes_matrix_to_f, bytes_vec_to_f};

use zkcreds::attrs::AccountableAttrs;
use zkcreds::field::Fr;
use zkcreds::multishow::{MultishowChecker, MultishowableAttrs};
use zkcreds::poseidon_utils::{setup_poseidon_params, Curve, PoseidonParams};
use zkcreds::pseudonymous_show::{PseudonymousAttrs, PseudonymousShowChecker};
use zkcreds::revealing_multishow::{MultishowableAttrs as RevealingAttrs, RevealingMultishowChecker};
use zkcreds::test_util::NameAndBirthYear;

fn to_ark(x: &Fr) -> ArkFr {
    ArkFr::read(&x.to_bytes()[..]).unwrap()
}

fn params() -> PoseidonParams {
    setup_poseidon_params(Curve::Bls381, 3, 5)
}

fn ark_hasher() -> Poseidon<ArkFr> {
    let d = arkworks_utils::poseidon_params::setup_poseidon_params(arkworks_utils::Curve::Bls381, 3, 5)
        .unwrap();
    Poseidon::new(PoseidonParameters {
        mds_matrix: bytes_matrix_to_f(&d.mds),
        round_keys: bytes_vec_to_f(&d.rounds),
        full_rounds: d.full_rounds,
        partial_rounds: d.partial_rounds,
        sbox: PoseidonSbox(d.exp),
        width: d.width,
    })
}

fn multishow_hidden_ctr(p: &PoseidonParams, person: &NameAndBirthYear, epoch: u64, ctr: u16) -> Fr {
    let token = MultishowableAttrs::compute_presentation_token(person, p.clone(), epoch, ctr);
    let checker = MultishowChecker {
        token,
        epoch,
        max_num_presentations: 128,
        ctr,
        params: p.clone(),
    };
    let inputs = checker.public_inputs();
    assert_eq!(inputs.len(), 3);
    assert_eq!(inputs[0], Fr::from_u64(epoch));
    assert_eq!(inputs[2], Fr::from_u64(128));
    inputs[1]
}

#[test]
fn test_multishow_token_matches_reference() {
    let mut rng = ark_std::test_rng();
    let p = params();
    let person = NameAndBirthYear::new(&mut rng, b"Andrew", 1992);
    let hidden = multishow_hidden_ctr(&p, &person, 5, 1);
    let seed = to_ark(&person.get_seed());
    let expected = ark_hasher()
        .hash(&[ArkFr::from(123u64), seed, ArkFr::from(5u64), ArkFr::from(1u64)])
        .unwrap();
    assert_eq!(to_ark(&hidden), expected);
}

#[test]
fn test_multishow_repeated_counter_is_detected() {
    let mut rng = ark_std::test_rng();
    let p = params();
    let person = NameAndBirthYear::new(&mut rng, b"Andrew", 1992);
    let first = multishow_hidden_ctr(&p, &person, 5, 1);
    let again = multishow_hidden_ctr(&p, &person, 5, 1);
    let next = multishow_hidden_ctr(&p, &person, 5, 2);
    let next_epoch = multishow_hidden_ctr(&p, &person, 6, 1);
    assert_eq!(first, again);
    assert_ne!(first, next);
    assert_ne!(first, next_epoch);
    // Another credential with the same seed repeats the value as well.
    let twin = NameAndBirthYear::new_with_seed(&mut rng, b"Carol", 1980, person.get_seed());
    assert_eq!(multishow_hidden_ctr(&p, &twin, 5, 1), first);
}

#[test]
fn test_pseudonym_is_constant() {
    let mut rng = ark_std::test_rng();
    let p = params();
    let person = NameAndBirthYear::new(&mut rng, b"Andrew", 1992);
    let t1 = PseudonymousAttrs::compute_presentation_token(&person, p.clone());
    let t2 = PseudonymousAttrs::compute_presentation_token(&person, p.clone());
    assert_eq!(t1.pseudonym, t2.pseudonym);
    let expected = ark_hasher()
        .hash(&[ArkFr::from(123u64), to_ark(&person.get_seed()), ArkFr::from(0u64)])
        .unwrap();
    assert_eq!(to_ark(&t1.pseudonym), expected);
    let checker = PseudonymousShowChecker { token: t1, params: p.clone() };
    assert_eq!(checker.public_inputs(), vec![t1.pseudonym]);
    let other = NameAndBirthYear::new(&mut rng, b"Andrew", 1992);
    let t3 = PseudonymousAttrs::compute_presentation_token(&other, p);
    assert_ne!(t1.pseudonym, t3.pseudonym);
}

fn revealing_inputs(
    p: &PoseidonParams,
    person: &NameAndBirthYear,
    epoch: u64,
    ctr: u16,
    nonce: Fr,
) -> Vec<Fr> {
    let token = RevealingAttrs::compute_presentation_token(person, p.clone(), epoch, ctr, nonce);
    let checker = RevealingMultishowChecker {
        token,
        epoch,
        nonce,
        max_num_presentations: 128,
        ctr,
        params: p.clone(),
    };
    let inputs = checker.public_inputs();
    assert_eq!(inputs.len(), 5);
    assert_eq!(inputs[0], Fr::from_u64(epoch));
    assert_eq!(inputs[1], nonce);
    assert_eq!(inputs[4], Fr::from_u64(128));
    inputs
}

#[test]
fn test_revealing_token_matches_reference() {
    let mut rng = ark_std::test_rng();
    let p = params();
    let person = NameAndBirthYear::new(&mut rng, b"Andrew", 1992);
    let nonce = Fr::from_u64(99);
    let inputs = revealing_inputs(&p, &person, 5, 1, nonce);
    let h = ark_hasher();
    let seed = to_ark(&person.get_seed());
    let hidden_ctr = h
        .hash(&[ArkFr::from(123u64), seed, ArkFr::from(5u64), ArkFr::from(1u64)])
        .unwrap();
    let nonce_hash = h.hash(&[ArkFr::from(125u64), ArkFr::from(99u64)]).unwrap();
    let id_fields: Vec<ArkFr> = person.get_id().to_field_elements().unwrap();
    let id_hash = h.hash(&[vec![ArkFr::from(125u64)], id_fields].concat()).unwrap();
    let slope = h
        .hash(&[ArkFr::from(124u64), seed, ArkFr::from(5u64), ArkFr::from(1u64)])
        .unwrap();
    assert_eq!(to_ark(&inputs[2]), hidden_ctr);
    assert_eq!(to_ark(&inputs[3]), id_hash + nonce_hash * slope);
}

#[test]
fn test_revealing_repeated_counter_reveals_id_hash() {
    let mut rng = ark_std::test_rng();
    let p = params();
    let person = NameAndBirthYear::new(&mut rng, b"Andrew", 1992);
    let n1 = Fr::from_u64(11);
    let n2 = Fr::from_u64(22);
    let a = revealing_inputs(&p, &person, 5, 3, n1);
    let b = revealing_inputs(&p, &person, 5, 3, n2);
    // Same counter in the same epoch: the hidden counters coincide.
    assert_eq!(a[2], b[2]);
    let h = ark_hasher();
    let h1 = h.hash(&[ArkFr::from(125u64), ArkFr::from(11u64)]).unwrap();
    let h2 = h.hash(&[ArkFr::from(125u64), ArkFr::from(22u64)]).unwrap();
    let y1 = to_ark(&a[3]);
    let y2 = to_ark(&b[3]);
    let id_fields: Vec<ArkFr> = person.get_id().to_field_elements().unwrap();
    let id_hash = h.hash(&[vec![ArkFr::from(125u64)], id_fields].concat()).unwrap();
    assert_eq!(y1 * h2 - y2 * h1, id_hash * (h2 - h1));
    // Solving the two points for the intercept recovers H(ID).
    let recovered = (y1 * h2 - y2 * h1) * ark_ff::Field::inverse(&(h2 - h1)).unwrap();
    assert_eq!(recovered, id_hash);
    // A fresh counter gives an unrelated hidden counter.
    let c = revealing_inputs(&p, &person, 5, 4, n1);
    assert_ne!(a[2], c[2]);
}
