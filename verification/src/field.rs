//! Elements of the scalar field of BLS12-381, the field in which every commitment, hash and
//! presentation token of this crate lives, and the byte encodings that move data into it.

use vstd::prelude::*;

use ark_bls12_381::Fr as ArkFr;
use ark_ff::{BigInteger256, FromBytes, PrimeField, ToBytes, ToConstraintField, UniformRand};
use rand::rngs::StdRng;
use rand::SeedableRng;
use rand_chacha::ChaCha12Rng;

verus! {

/// The standard random generator of `rand`, carried through to the sampling calls.
#[verifier::external_type_specification]
#[verifier::external_body]
pub struct ExStdRng(StdRng);

/// The order of the scalar field of BLS12-381.
pub open spec fn modulus() -> nat {
    0x73eda753299d7d483339d80809a1d80553bda402fffe5bfeffffffff00000001nat
}

/// Number of bytes packed into one field element when a byte string is turned into field
/// elements (the field holds 254 bits safely, i.e. 31 whole bytes).
pub open spec fn pack_chunk_len() -> nat {
    31
}

/// The integer that four little-endian 64-bit limbs stand for.
pub open spec fn limbs_value(l: [u64; 4]) -> nat {
    l[0] as nat + l[1] as nat * 0x1_0000_0000_0000_0000nat + l[2] as nat
        * 0x1_0000_0000_0000_0000_0000_0000_0000_0000nat + l[3] as nat
        * 0x1_0000_0000_0000_0000_0000_0000_0000_0000_0000_0000_0000_0000nat
}

/// The integer that a little-endian byte string stands for.
pub open spec fn le_nat(s: Seq<u8>) -> nat
    decreases s.len(),
{
    if s.len() == 0 {
        0
    } else {
        s[0] as nat + 256 * le_nat(s.drop_first())
    }
}

/// The integer that a big-endian byte string stands for.
pub open spec fn be_nat(s: Seq<u8>) -> nat
    decreases s.len(),
{
    if s.len() == 0 {
        0
    } else {
        be_nat(s.drop_last()) * 256 + s.last() as nat
    }
}

/// The `n` low bytes of `v`, least significant first.
pub open spec fn le_bytes(v: nat, n: nat) -> Seq<u8>
    decreases n,
{
    if n == 0 {
        Seq::empty()
    } else {
        seq![(v % 256) as u8] + le_bytes(v / 256, (n - 1) as nat)
    }
}

/// `le_bytes(v, n)` has `n` bytes.
pub proof fn lemma_le_bytes_len(v: nat, n: nat)
    ensures
        le_bytes(v, n).len() == n,
    decreases n,
{
    if n > 0 {
        lemma_le_bytes_len(v / 256, (n - 1) as nat);
    }
}

/// `256^n`.
pub open spec fn pow256(n: nat) -> nat
    decreases n,
{
    if n == 0 {
        1
    } else {
        256 * pow256((n - 1) as nat)
    }
}

/// Reading back the `n` low bytes of `v` gives `v` modulo `256^n`.
pub proof fn lemma_le_bytes_value(v: nat, n: nat)
    ensures
        le_nat(le_bytes(v, n)) == v % pow256(n),
    decreases n,
{
    if n > 0 {
        let rest = le_bytes(v / 256, (n - 1) as nat);
        lemma_le_bytes_value(v / 256, (n - 1) as nat);
        assert((seq![(v % 256) as u8] + rest).drop_first() =~= rest);
        assert(le_bytes(v, n) == seq![(v % 256) as u8] + rest);
        assert(pow256((n - 1) as nat) > 0) by {
            lemma_pow256_positive((n - 1) as nat);
        }
        vstd::arithmetic::div_mod::lemma_mod_breakdown(
            v as int,
            256,
            pow256((n - 1) as nat) as int,
        );
    }
}

/// `256^n` is positive.
pub proof fn lemma_pow256_positive(n: nat)
    ensures
        pow256(n) > 0,
    decreases n,
{
    if n > 0 {
        lemma_pow256_positive((n - 1) as nat);
    }
}

/// The 32-byte encoding of a field element reads back as the same element: `from_bytes`
/// undoes `to_bytes`.
pub proof fn lemma_encoding_round_trip(v: nat)
    requires
        v < modulus(),
    ensures
        le_bytes(v, 32).len() == 32,
        le_nat(le_bytes(v, 32).take(32)) == v,
{
    lemma_le_bytes_len(v, 32);
    assert(le_bytes(v, 32).take(32) =~= le_bytes(v, 32));
    lemma_le_bytes_value(v, 32);
    assert(pow256(32) == 0x1_0000_0000_0000_0000_0000_0000_0000_0000_0000_0000_0000_0000_0000_0000_0000_0000nat) by {
        reveal_with_fuel(pow256, 33);
    }
    vstd::arithmetic::div_mod::lemma_small_mod(v, pow256(32));
}

/// Equal-length byte strings with the same little-endian value are equal.
pub proof fn lemma_le_nat_injective(s: Seq<u8>, t: Seq<u8>)
    requires
        s.len() == t.len(),
        le_nat(s) == le_nat(t),
    ensures
        s == t,
    decreases s.len(),
{
    if s.len() > 0 {
        assert(s[0] as nat + 256 * le_nat(s.drop_first()) == t[0] as nat + 256 * le_nat(
            t.drop_first(),
        ));
        assert(s[0] == t[0]);
        lemma_le_nat_injective(s.drop_first(), t.drop_first());
        assert(s =~= seq![s[0]] + s.drop_first());
        assert(t =~= seq![t[0]] + t.drop_first());
    } else {
        assert(s =~= t);
    }
}

/// A byte string packed into field elements: consecutive chunks of 31 bytes (the last one
/// possibly shorter), each read as a little-endian integer.
pub open spec fn pack_bytes(s: Seq<u8>) -> Seq<nat>
    decreases s.len(),
{
    if s.len() == 0 {
        Seq::empty()
    } else if s.len() <= pack_chunk_len() {
        seq![le_nat(s)]
    } else {
        seq![le_nat(s.take(pack_chunk_len() as int))] + pack_bytes(s.skip(pack_chunk_len() as int))
    }
}

/// The field element that arkworks samples with `UniformRand` from a ChaCha12 generator
/// seeded with `seed`.
pub uninterp spec fn seeded_field_element(seed: Seq<u8>) -> nat;

/// An element of the scalar field of BLS12-381, held as its canonical representative in
/// four little-endian 64-bit limbs.
#[derive(Clone, Copy, Debug, PartialEq, Eq)]
pub struct Fr {
    pub(crate) limbs: [u64; 4],
}

impl View for Fr {
    type V = nat;

    open spec fn view(&self) -> nat {
        self.value()
    }
}

/// The values of a sequence of field elements.
pub open spec fn values(s: Seq<Fr>) -> Seq<nat> {
    s.map_values(|x: Fr| x@)
}

impl Fr {
    /// The element as an integer below the field order.
    pub closed spec fn value(self) -> nat {
        limbs_value(self.limbs) % modulus()
    }

    /// The limbs hold the canonical representative itself.
    #[verifier::type_invariant]
    spec fn canonical(self) -> bool {
        limbs_value(self.limbs) < modulus()
    }

    /// Every field element is below the field order.
    pub proof fn lemma_below_modulus(x: Fr)
        ensures
            x@ < modulus(),
    {
    }

    /// The element `0`.
    pub fn zero() -> (r: Fr)
        ensures
            r@ == 0,
    {
        Fr { limbs: [0, 0, 0, 0] }
    }

    /// The element that the integer `x` stands for.
    pub fn from_u64(x: u64) -> (r: Fr)
        ensures
            r@ == x,
    {
        Fr { limbs: [x, 0, 0, 0] }
    }

    /// The canonical encoding: 32 little-endian bytes.
    pub fn to_bytes(&self) -> (r: Vec<u8>)
        ensures
            r@ == le_bytes(self@, 32),
    {
        fr_to_bytes(self)
    }

    /// Reads the canonical encoding from the first 32 bytes of `b`; `None` when there are
    /// fewer than 32 bytes or they encode an integer not below the field order.
    pub fn from_bytes(b: &[u8]) -> (r: Option<Fr>)
        ensures
            r is Some <==> (b.len() >= 32 && le_nat(b@.take(32)) < modulus()),
            r matches Some(x) ==> x@ == le_nat(b@.take(32)),
    {
        fr_from_le_bytes(b)
    }

    /// The element that the integer `x` stands for.
    pub fn from_u16(x: u16) -> (r: Fr)
        ensures
            r@ == x,
    {
        Fr::from_u64(x as u64)
    }

    /// The element that the integer `x` stands for.
    pub fn from_u8(x: u8) -> (r: Fr)
        ensures
            r@ == x,
    {
        Fr::from_u64(x as u64)
    }
}

/// Field addition, through arkworks' `Add` on `ark_bls12_381::Fr`; it returns the sum
/// reduced modulo the field order.
#[verifier::external_body]
pub(crate) fn fr_add(a: &Fr, b: &Fr) -> (r: Fr)
    ensures
        r@ == (a@ + b@) % modulus(),
{
    let x = ArkFr::from_repr(BigInteger256::new(a.limbs)).unwrap();
    let y = ArkFr::from_repr(BigInteger256::new(b.limbs)).unwrap();
    Fr { limbs: (x + y).into_repr().0 }
}

/// Field multiplication, through arkworks' `Mul` on `ark_bls12_381::Fr`; it returns the
/// product reduced modulo the field order.
#[verifier::external_body]
pub(crate) fn fr_mul(a: &Fr, b: &Fr) -> (r: Fr)
    ensures
        r@ == (a@ * b@) % modulus(),
{
    let x = ArkFr::from_repr(BigInteger256::new(a.limbs)).unwrap();
    let y = ArkFr::from_repr(BigInteger256::new(b.limbs)).unwrap();
    Fr { limbs: (x * y).into_repr().0 }
}

/// The byte encoding of a field element, through arkworks' `ToBytes::write` (the encoding
/// that `to_bytes!` and `CanonicalSerialize::serialize` also produce for this field): the
/// canonical representative in 32 little-endian bytes.
#[verifier::external_body]
pub(crate) fn fr_to_bytes(a: &Fr) -> (r: Vec<u8>)
    ensures
        r@ == le_bytes(a@, 32),
{
    let x = ArkFr::from_repr(BigInteger256::new(a.limbs)).unwrap();
    let mut out = Vec::new();
    x.write(&mut out).unwrap();
    out
}

/// Reads a field element with arkworks' `FromBytes::read`: four little-endian 64-bit limbs
/// from the first 32 bytes (an error on fewer bytes), then `from_repr`, which refuses an
/// integer not below the field order.
#[verifier::external_body]
fn fr_from_le_bytes(b: &[u8]) -> (r: Option<Fr>)
    ensures
        r is Some <==> (b.len() >= 32 && le_nat(b@.take(32)) < modulus()),
        r matches Some(x) ==> x@ == le_nat(b@.take(32)),
{
    ArkFr::read(b).ok().map(|x| Fr { limbs: x.into_repr().0 })
}

/// Packs bytes into field elements, through arkworks' `ToConstraintField::to_field_elements`
/// on `[u8]`: chunks of 31 bytes, each read as a little-endian integer. A 31-byte chunk is
/// always below the field order, so the call never returns `None`.
#[verifier::external_body]
pub(crate) fn bytes_to_field_elements(b: &[u8]) -> (r: Vec<Fr>)
    ensures
        values(r@) == pack_bytes(b@),
{
    let fes: Vec<ArkFr> = b.to_field_elements().unwrap();
    fes.iter().map(|x| Fr { limbs: x.into_repr().0 }).collect()
}

/// The field element that `UniformRand::rand` draws from a ChaCha12 generator made by
/// `ChaCha12Rng::from_seed(seed)`. The generator is deterministic, so the element is a
/// function of the seed alone.
#[verifier::external_body]
pub(crate) fn seeded_fr(seed: &[u8; 32]) -> (r: Fr)
    ensures
        r@ == seeded_field_element(seed@),
{
    let mut rng = ChaCha12Rng::from_seed(*seed);
    let x = ArkFr::rand(&mut rng);
    Fr { limbs: x.into_repr().0 }
}

/// A uniformly random field element, drawn by `UniformRand::rand` from `rng`. Nothing is
/// stated of its value beyond its being a field element.
#[verifier::external_body]
pub(crate) fn random_fr(rng: &mut StdRng) -> (r: Fr) {
    let x = ArkFr::rand(rng);
    Fr { limbs: x.into_repr().0 }
}

/// 32 uniformly random bytes, drawn by `UniformRand::rand` on `[u8; 32]` from `rng`.
#[verifier::external_body]
pub(crate) fn random_bytes32(rng: &mut StdRng) -> (r: [u8; 32]) {
    <[u8; 32]>::rand(rng)
}

} // verus!
