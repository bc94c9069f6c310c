use ark_bls12_381::Fr as ArkFr;
use ark_ff::{FromBytes, ToBytes, ToConstraintField};
use arkworks_native_gadgets::poseidon::{sbox::PoseidonSbox, FieldHasher, Poseidon, PoseidonParameters};
use arkworks_utils::{bytes_matrix_to_f, bytes_vec_to_f};

use zkcreds::field::Fr;
use zkcreds::poseidon_utils::{
    poseidon_iterated_hash, setup_poseidon_params, Bls12PoseidonCommitter, Bls12PoseidonCrh,
    ComNonce, Curve,
};
use zkcreds::zk_utils::IdentityCRH;

fn to_ark(x: &Fr) -> ArkFr {
    ArkFr::read(&x.to_bytes()[..]).unwrap()
}

fn from_ark(x: &ArkFr) -> Fr {
    let mut v = Vec::new();
    x.write(&mut v).unwrap();
    Fr::from_bytes(&v).unwrap()
}

fn ark_params() -> PoseidonParameters<ArkFr> {
    let d = arkworks_utils::poseidon_params::setup_poseidon_params(arkworks_utils::Curve::Bls381, 3, 5)
        .unwrap();
    PoseidonParameters {
        mds_matrix: bytes_matrix_to_f(&d.mds),
        round_keys: bytes_vec_to_f(&d.rounds),
        full_rounds: d.full_rounds,
        partial_rounds: d.partial_rounds,
        sbox: PoseidonSbox(d.exp),
        width: d.width,
    }
}

// The iterated hash computed directly with arkworks: a first block of up to four elements,
// then blocks of the running hash and up to three elements.
fn reference_iterated_hash(input: &[ArkFr]) -> ArkFr {
    let hasher = Poseidon::new(ark_params());
    let first_block_len = core::cmp::min(input.len(), 4);
    let mut running = hasher.hash(&input[..first_block_len]).unwrap();
    for block in input[first_block_len..].chunks(3) {
        let next_input = [&[running], block].concat();
        running = hasher.hash(&next_input).unwrap();
    }
    running
}

fn reference_commit(input: &[u8], r: &ArkFr) -> ArkFr {
    let mut r_bytes = Vec::new();
    r.write(&mut r_bytes).unwrap();
    let hash_input: Vec<u8> = [&b"pcom"[..], &r_bytes, input].concat();
    let packed: Vec<ArkFr> = hash_input.to_field_elements().unwrap();
    reference_iterated_hash(&packed)
}

#[test]
fn test_setup_params_shape() {
    let params = setup_poseidon_params(Curve::Bls381, 3, 5);
    assert_eq!(params.width, 5);
    assert_eq!(params.exp, 3);
    assert_eq!(params.full_rounds, 8);
    assert_eq!(params.partial_rounds, 60);
    assert_eq!(params.round_keys.len(), 465);
    assert_eq!(params.mds_matrix.len(), 5);
    assert!(params.mds_matrix.iter().all(|row| row.len() == 5));

    let small = setup_poseidon_params(Curve::Bls381, 5, 3);
    assert_eq!(small.width, 3);
    assert_eq!(small.partial_rounds, 57);
    assert_eq!(small.round_keys.len(), 195);

    // The round constants are the published ones, read big-endian modulo the field order.
    let reference = ark_params();
    for (ours, theirs) in params.round_keys.iter().zip(reference.round_keys.iter()) {
        assert_eq!(to_ark(ours), *theirs);
    }
}

#[test]
fn test_iterated_hash_matches_reference() {
    let params = setup_poseidon_params(Curve::Bls381, 3, 5);
    for n in 0..11u64 {
        let input: Vec<Fr> = (0..n).map(|i| Fr::from_u64(1000 + 7 * i)).collect();
        let ark_input: Vec<ArkFr> = input.iter().map(to_ark).collect();
        let ours = poseidon_iterated_hash(&params, &input);
        assert_eq!(to_ark(&ours), reference_iterated_hash(&ark_input), "length {}", n);
    }
}

#[test]
fn test_short_input_is_one_hash() {
    let params = setup_poseidon_params(Curve::Bls381, 3, 5);
    let input = vec![Fr::from_u64(1), Fr::from_u64(2)];
    let ours = poseidon_iterated_hash(&params, &input);
    let single = Poseidon::new(ark_params()).hash(&[to_ark(&input[0]), to_ark(&input[1])]).unwrap();
    assert_eq!(to_ark(&ours), single);
    // A one-element change changes the hash.
    let other = poseidon_iterated_hash(&params, &[Fr::from_u64(1), Fr::from_u64(3)]);
    assert_ne!(ours, other);
}

#[test]
fn test_commit_matches_reference() {
    let params = setup_poseidon_params(Curve::Bls381, 3, 5);
    let r = Fr::from_u64(0x1234_5678_9abc);
    for len in [0usize, 5, 31, 49, 100] {
        let input: Vec<u8> = (0..len).map(|i| (i * 13 + 1) as u8).collect();
        let ours = Bls12PoseidonCommitter::commit(&params, &input, &r);
        assert_eq!(to_ark(&ours), reference_commit(&input, &to_ark(&r)), "length {}", len);
    }
}

#[test]
fn test_commitment_depends_on_randomness() {
    let params = setup_poseidon_params(Curve::Bls381, 3, 5);
    let input = b"Andrew".to_vec();
    let c1 = Bls12PoseidonCommitter::commit(&params, &input, &Fr::from_u64(1));
    let c2 = Bls12PoseidonCommitter::commit(&params, &input, &Fr::from_u64(2));
    let c1_again = Bls12PoseidonCommitter::commit(&params, &input, &Fr::from_u64(1));
    assert_ne!(c1, c2);
    assert_eq!(c1, c1_again);
}

#[test]
fn test_crh_matches_reference() {
    let params = setup_poseidon_params(Curve::Bls381, 3, 5);
    let left = [7u8; 32];
    let right = [9u8; 32];
    let ours = Bls12PoseidonCrh::evaluate(&params, &left, &right);
    let hash_input: Vec<u8> = [&b"pcrh"[..], &left[..], &right[..]].concat();
    let packed: Vec<ArkFr> = hash_input.to_field_elements().unwrap();
    assert_eq!(to_ark(&ours), reference_iterated_hash(&packed));
    // Swapping the children changes the hash.
    let swapped = Bls12PoseidonCrh::evaluate(&params, &right, &left);
    assert_ne!(ours, swapped);
}

#[test]
fn test_commitment_and_tree_hash_are_separated() {
    // The same 68 bytes hashed as a commitment body and as two tree children give different
    // results because the separators differ.
    let params = setup_poseidon_params(Curve::Bls381, 3, 5);
    let left = [0u8; 32];
    let right = [0u8; 32];
    let tree = Bls12PoseidonCrh::evaluate(&params, &left, &right);
    let com = Bls12PoseidonCommitter::commit(&params, &[0u8; 32], &Fr::zero());
    assert_ne!(tree, com);
}

#[test]
fn test_field_encoding_round_trip() {
    let x = Fr::from_u64(0x0102_0304_0506_0708);
    let bytes = x.to_bytes();
    assert_eq!(bytes.len(), 32);
    assert_eq!(&bytes[..8], &[8, 7, 6, 5, 4, 3, 2, 1]);
    assert!(bytes[8..].iter().all(|b| *b == 0));
    assert_eq!(Fr::from_bytes(&bytes), Some(x));
    // Too short, or not below the field order.
    assert_eq!(Fr::from_bytes(&bytes[..31]), None);
    assert_eq!(Fr::from_bytes(&[0xffu8; 32]), None);
    // Values move through arkworks unchanged.
    let y = ArkFr::from(77u64);
    assert_eq!(from_ark(&y), Fr::from_u64(77));
}

#[test]
fn test_com_nonce() {
    let nonce = ComNonce([3u8; 32]);
    assert_eq!(nonce.to_bytes(), &[3u8; 32][..]);
    let zero = ComNonce::default();
    assert_eq!(zero.to_bytes(), &[0u8; 32][..]);
    assert!(nonce != zero);
    assert!(nonce == ComNonce([3u8; 32]));
    let mut rng = ark_std::test_rng();
    let a = ComNonce::rand(&mut rng);
    let b = ComNonce::rand(&mut rng);
    assert!(a != b);
}

#[test]
fn test_identity_crh() {
    let input = b"some commitment bytes".to_vec();
    assert_eq!(IdentityCRH::evaluate(&input), input);
    assert_eq!(IdentityCRH::evaluate(&[]), Vec::<u8>::new());
}
