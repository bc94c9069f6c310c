use ark_bls12_381::Fr as ArkFr;
use ark_ff::{FromBytes, ToBytes, ToConstraintField, UniformRand};
use arkworks_native_gadgets::poseidon::{sbox::PoseidonSbox, FieldHasher, Poseidon, PoseidonParameters};
use arkworks_utils::{bytes_matrix_to_f, bytes_vec_to_f};
use rand::SeedableRng;
use rand_chacha::ChaCha12Rng;

use zkcreds::attrs::{AccountableAttrs, Attrs};
use zkcreds::com_forest::ComForestRoots;
use zkcreds::field::Fr;
use zkcreds::poseidon_utils::{setup_poseidon_params, Curve};
use zkcreds::test_util::{AgeChecker, NameAndBirthYear, Window17x63, Window8x128, Window9x63};

fn to_ark(x: &Fr) -> ArkFr {
    ArkFr::read(&x.to_bytes()[..]).unwrap()
}

fn reference_commit(input: &[u8], nonce: &[u8; 32]) -> ArkFr {
    let d = arkworks_utils::poseidon_params::setup_poseidon_params(arkworks_utils::Curve::Bls381, 3, 5)
        .unwrap();
    let params = PoseidonParameters {
        mds_matrix: bytes_matrix_to_f(&d.mds),
        round_keys: bytes_vec_to_f(&d.rounds),
        full_rounds: d.full_rounds,
        partial_rounds: d.partial_rounds,
        sbox: PoseidonSbox(d.exp),
        width: d.width,
    };
    let hasher = Poseidon::new(params);
    let r = ArkFr::rand(&mut ChaCha12Rng::from_seed(*nonce));
    let mut r_bytes = Vec::new();
    r.write(&mut r_bytes).unwrap();
    let hash_input: Vec<u8> = [&b"pcom"[..], &r_bytes, input].concat();
    let packed: Vec<ArkFr> = hash_input.to_field_elements().unwrap();
    let first = core::cmp::min(packed.len(), 4);
    let mut running = hasher.hash(&packed[..first]).unwrap();
    for block in packed[first..].chunks(3) {
        running = hasher.hash(&[&[running], block].concat()).unwrap();
    }
    running
}

#[test]
fn test_new_credential() {
    let mut rng = ark_std::test_rng();
    let person = NameAndBirthYear::new(&mut rng, b"Andrew", 1992);
    let mut expected_name = [0u8; 16];
    expected_name[..6].copy_from_slice(b"Andrew");
    assert_eq!(person.first_name(), &expected_name[..]);
    assert!(!person.is_revoked());
    assert_eq!(person.status_text(), "凭证未撤销");
    assert_eq!(person.get_id(), expected_name.to_vec());
}

#[test]
fn test_revoked_credential_status() {
    let mut rng = ark_std::test_rng();
    let mut person = NameAndBirthYear::new(&mut rng, b"Andrew", 1992);
    let before = person.to_bytes();
    person.revoke();
    assert!(person.is_revoked());
    assert_eq!(person.status_text(), "凭证已撤销");
    let after = person.to_bytes();
    assert_eq!(after.len(), 81);
    assert_eq!(before[48], 1);
    assert_eq!(after[48], 0);
    assert_eq!(&before[..48], &after[..48]);
    assert_eq!(&before[49..], &after[49..]);
    // Revoking is idempotent.
    person.revoke();
    assert!(person.is_revoked());
}

#[test]
fn test_credential_serialisation() {
    let mut rng = ark_std::test_rng();
    let person = NameAndBirthYear::new(&mut rng, b"Andrew", 1992);
    let bytes = person.to_bytes();
    assert_eq!(&bytes[..6], b"Andrew");
    assert!(bytes[6..16].iter().all(|b| *b == 0));
    // 1992 = 0x07c8, little endian in 32 bytes.
    assert_eq!(bytes[16], 0xc8);
    assert_eq!(bytes[17], 0x07);
    assert!(bytes[18..48].iter().all(|b| *b == 0));
    assert_eq!(bytes[48], 1);
    assert_eq!(bytes.len(), 81);
    assert_eq!(&bytes[49..81], &person.get_seed().to_bytes()[..]);
}

#[test]
fn test_serialisation_binds_seed() {
    let mut rng = ark_std::test_rng();
    let a = NameAndBirthYear::new_with_seed(&mut rng, b"Andrew", 1992, Fr::from_u64(0));
    let b = NameAndBirthYear::new_with_seed(&mut rng, b"Andrew", 1992, Fr::from_u64(1));
    assert_ne!(a.to_bytes(), b.to_bytes());
    assert_eq!(&a.to_bytes()[..49], &b.to_bytes()[..49]);
    assert_eq!(b.to_bytes()[49], 1);
    assert!(b.to_bytes()[50..].iter().all(|x| *x == 0));
}

#[test]
fn test_attrs_commit_matches_reference() {
    let mut rng = ark_std::test_rng();
    let params = setup_poseidon_params(Curve::Bls381, 3, 5);
    let person = NameAndBirthYear::new(&mut rng, b"Andrew", 1992);
    let com = person.commit(&params);
    let nonce = person.get_com_nonce().0;
    assert_eq!(to_ark(&com), reference_commit(&person.to_bytes(), &nonce));
    // Deterministic in the nonce.
    assert_eq!(person.commit(&params), com);
    let copy = person.clone();
    assert_eq!(copy.commit(&params), com);
    // Another nonce gives another commitment.
    let other = NameAndBirthYear::new(&mut rng, b"Andrew", 1992);
    assert_ne!(other.commit(&params), com);
}

#[test]
fn test_revoked_commitment_differs() {
    let mut rng = ark_std::test_rng();
    let params = setup_poseidon_params(Curve::Bls381, 3, 5);
    let person = NameAndBirthYear::new(&mut rng, b"Andrew", 1992);
    let mut revoked = person.clone();
    revoked.revoke();
    assert_ne!(person.commit(&params), revoked.commit(&params));
}

#[test]
fn test_new_with_seed() {
    let mut rng = ark_std::test_rng();
    let seed = Fr::from_u64(42);
    let person = NameAndBirthYear::new_with_seed(&mut rng, b"Bob", 2001, seed);
    assert_eq!(person.get_seed(), seed);
    assert!(!person.is_revoked());
    assert_eq!(&person.first_name()[..3], b"Bob");
}

#[test]
fn test_default_credential() {
    let d = NameAndBirthYear::default();
    assert_eq!(d.first_name(), &[0u8; 16][..]);
    assert!(d.is_revoked());
    assert_eq!(d.get_seed(), Fr::zero());
}

#[test]
fn test_age_checker_public_inputs() {
    let checker = AgeChecker { threshold_birth_year: Fr::from_u16(2001) };
    assert_eq!(checker.public_inputs(), vec![Fr::from_u64(2001)]);
}

#[test]
fn test_forest_roots() {
    let roots = ComForestRoots::new(10);
    assert_eq!(roots.roots.len(), 10);
    assert!(roots.roots.iter().all(|r| *r == Fr::zero()));
    assert_eq!(roots.public_inputs(), roots.roots);
    let custom = ComForestRoots { roots: vec![Fr::from_u64(3), Fr::from_u64(5)] };
    assert_eq!(custom.public_inputs(), vec![Fr::from_u64(3), Fr::from_u64(5)]);
    assert!(ComForestRoots::new(0).public_inputs().is_empty());
}

#[test]
fn test_windows() {
    assert_eq!(Window8x128::WINDOW_SIZE, 128);
    assert_eq!(Window8x128::NUM_WINDOWS, 10);
    assert_eq!(Window9x63::NUM_WINDOWS, 9);
    assert_eq!(Window17x63::WINDOW_SIZE, 63);
}
