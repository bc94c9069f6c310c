//! The Poseidon hash on BLS12-381, the commitment scheme and the two-to-one hash built on it,
//! and the nonce from which commitment randomness is derived.

use vstd::prelude::*;

use crate::field::{
    lemma_le_nat_injective, le_nat, pack_chunk_len, bytes_to_field_elements, fr_to_bytes, le_bytes, modulus, pack_bytes, random_bytes32, values, be_nat,
    Fr,
};

use ark_bls12_381::Fr as ArkFr;
use ark_ff::{BigInteger256, PrimeField};
use arkworks_native_gadgets::poseidon::{sbox::PoseidonSbox, FieldHasher, Poseidon, PoseidonParameters};
use rand::rngs::StdRng;

verus! {

/// A commitment nonce: a 256-bit value that seeds the randomness of a commitment.
#[derive(Clone, Copy)]
pub struct ComNonce(pub [u8; 32]);

impl PartialEq for ComNonce {
    /// Two nonces are equal when all their bytes are.
    fn eq(&self, other: &ComNonce) -> (r: bool) {
        let mut i: usize = 0;
        while i < 32
            invariant
                0 <= i <= 32,
                forall|j: int| 0 <= j < i ==> self.0[j] == other.0[j],
            decreases 32 - i,
        {
            if self.0[i] != other.0[i] {
                return false;
            }
            i = i + 1;
        }
        assert(self.0@ =~= other.0@);
        true
    }
}

impl vstd::std_specs::cmp::PartialEqSpecImpl for ComNonce {
    open spec fn obeys_eq_spec() -> bool {
        true
    }

    open spec fn eq_spec(&self, other: &ComNonce) -> bool {
        self.0@ == other.0@
    }
}

impl Eq for ComNonce {

}

impl ComNonce {
    /// The nonce's bytes.
    pub fn to_bytes(&self) -> (r: &[u8])
        ensures
            r@ == self.0@,
    {
        self.0.as_slice()
    }

    /// A uniformly random nonce drawn from `rng`.
    pub fn rand(rng: &mut StdRng) -> (r: ComNonce) {
        ComNonce(random_bytes32(rng))
    }
}

impl Default for ComNonce {
    /// The all-zero nonce.
    fn default() -> (r: ComNonce)
        ensures
            r.0@ == Seq::new(32, |i: int| 0u8),
    {
        ComNonce([0u8; 32])
    }
}

/// The curves for which published Poseidon parameters exist.
#[derive(Clone, Copy, PartialEq, Eq, Structural)]
pub enum Curve {
    Bls381,
    Bn254,
}

/// A number standing for each curve, for the names below.
pub open spec fn curve_id(c: Curve) -> int {
    match c {
        Curve::Bls381 => 0,
        Curve::Bn254 => 1,
    }
}

/// The published Poseidon tables (MDS matrix entries, then round constants, each entry a
/// big-endian byte string) that `arkworks_utils` holds for a curve, S-box exponent and width.
pub uninterp spec fn poseidon_tables(curve: int, exp: int, width: int) -> (
    Seq<Seq<Seq<u8>>>,
    Seq<Seq<u8>>,
);

/// The Poseidon permutation-based hash of `input` under the given round constants, MDS
/// matrix, round counts, width and S-box exponent, as `arkworks_native_gadgets` computes it.
pub uninterp spec fn poseidon_hash(
    round_keys: Seq<nat>,
    mds: Seq<Seq<nat>>,
    full_rounds: nat,
    partial_rounds: nat,
    width: nat,
    exp: int,
    input: Seq<nat>,
) -> nat;

/// The parameter sets that this crate loads: those of BLS12-381 with S-box exponent 3 or 5
/// and width 3 or 5.
pub open spec fn supported_params(curve: Curve, exp: i8, width: u8) -> bool {
    &&& curve == Curve::Bls381
    &&& exp == 3 || exp == 5
    &&& width == 3 || width == 5
}

/// Partial rounds in the published tables of a given width.
pub open spec fn table_partial_rounds(width: u8) -> u8 {
    if width == 3 {
        57
    } else {
        60
    }
}

/// Round constants in the published tables.
pub open spec fn table_round_constants(exp: i8, width: u8) -> nat {
    if exp == 3 {
        if width == 3 {
            276
        } else {
            465
        }
    } else {
        if width == 3 {
            195
        } else {
            340
        }
    }
}

/// Big-endian byte strings read as field elements (reduced modulo the field order).
pub open spec fn be_values(v: Seq<Seq<u8>>) -> Seq<nat> {
    v.map_values(|b: Seq<u8>| be_nat(b) % modulus())
}

/// The raw published Poseidon tables.
struct PoseidonTables {
    mds: Vec<Vec<Vec<u8>>>,
    rounds: Vec<Vec<u8>>,
    full_rounds: u8,
    partial_rounds: u8,
    width: u8,
    exp: i8,
}

/// Loads the published tables through `arkworks_utils::poseidon_params::setup_poseidon_params`.
/// The crate is built with the four BLS12-381 tables of exponent 3 or 5 and width 3 or 5, so
/// the call returns (the hex strings are valid) and its fields are the constants of those
/// files: 8 full rounds, 57 or 60 partial rounds, a width x width MDS matrix and the number of
/// round constants given by `table_round_constants`.
#[verifier::external_body]
fn load_poseidon_tables(curve: Curve, exp: i8, width: u8) -> (r: PoseidonTables)
    requires
        supported_params(curve, exp, width),
    ensures
        (r.mds.deep_view(), r.rounds.deep_view()) == poseidon_tables(
            curve_id(curve),
            exp as int,
            width as int,
        ),
        r.full_rounds == 8,
        r.partial_rounds == table_partial_rounds(width),
        r.width == width,
        r.exp == exp,
        r.rounds.len() == table_round_constants(exp, width),
        r.mds.len() == width,
        forall|i: int| 0 <= i < r.mds.len() ==> #[trigger] r.mds[i].len() == width,
{
    let c = match curve {
        Curve::Bls381 => arkworks_utils::Curve::Bls381,
        Curve::Bn254 => arkworks_utils::Curve::Bn254,
    };
    let d = arkworks_utils::poseidon_params::setup_poseidon_params(c, exp, width).unwrap();
    PoseidonTables {
        mds: d.mds,
        rounds: d.rounds,
        full_rounds: d.full_rounds,
        partial_rounds: d.partial_rounds,
        width: d.width,
        exp: d.exp,
    }
}

/// Reads each byte string as a big-endian integer reduced into the field, through
/// `arkworks_utils::bytes_vec_to_f` (which calls `from_be_bytes_mod_order` on each entry).
#[verifier::external_body]
fn bytes_vec_to_f(v: &Vec<Vec<u8>>) -> (r: Vec<Fr>)
    ensures
        values(r@) == be_values(v.deep_view()),
{
    let fs: Vec<ArkFr> = arkworks_utils::bytes_vec_to_f(v);
    fs.iter().map(|x| Fr { limbs: x.into_repr().0 }).collect()
}

/// Reads each row of byte strings as in `bytes_vec_to_f`, through
/// `arkworks_utils::bytes_matrix_to_f`.
#[verifier::external_body]
fn bytes_matrix_to_f(m: &Vec<Vec<Vec<u8>>>) -> (r: Vec<Vec<Fr>>)
    ensures
        r.len() == m.len(),
        forall|i: int|
            0 <= i < r.len() ==> values(#[trigger] r[i]@) == be_values(m[i].deep_view()),
{
    let fs: Vec<Vec<ArkFr>> = arkworks_utils::bytes_matrix_to_f(m);
    fs.iter().map(|row| row.iter().map(|x| Fr { limbs: x.into_repr().0 }).collect()).collect()
}

/// Parameters of the Poseidon hash: round constants, MDS matrix, numbers of full and partial
/// rounds, width (inputs plus one) and S-box exponent.
#[derive(Clone)]
pub struct PoseidonParams {
    pub round_keys: Vec<Fr>,
    pub mds_matrix: Vec<Vec<Fr>>,
    pub full_rounds: u8,
    pub partial_rounds: u8,
    pub width: u8,
    pub exp: i8,
}

impl Default for PoseidonParams {
    /// Empty parameters (no rounds, width 0, S-box exponent 5); they are not fit for hashing.
    fn default() -> (r: PoseidonParams)
        ensures
            r.round_keys@.len() == 0,
            r.mds_matrix@.len() == 0,
            r.full_rounds == 0,
            r.partial_rounds == 0,
            r.width == 0,
            r.exp == 5,
    {
        PoseidonParams {
            round_keys: Vec::new(),
            mds_matrix: Vec::new(),
            full_rounds: 0,
            partial_rounds: 0,
            width: 0,
            exp: 5,
        }
    }
}

impl PoseidonParams {
    /// Parameters under which hashing never fails: a positive width, an S-box exponent that
    /// needs no inversion, enough round constants for every round and a width x width matrix.
    pub open spec fn wf(&self) -> bool {
        &&& self.width >= 1
        &&& self.exp == 3 || self.exp == 5 || self.exp == 17
        &&& self.round_keys.len() >= (self.full_rounds + self.partial_rounds) * self.width
        &&& self.mds_matrix.len() == self.width
        &&& forall|i: int|
            0 <= i < self.mds_matrix.len() ==> #[trigger] self.mds_matrix[i].len() == self.width
    }

    /// The MDS matrix as integers.
    pub open spec fn mds_values(&self) -> Seq<Seq<nat>> {
        self.mds_matrix@.map_values(|row: Vec<Fr>| values(row@))
    }

    /// The Poseidon hash of `input` under these parameters.
    pub open spec fn hash(&self, input: Seq<nat>) -> nat {
        poseidon_hash(
            values(self.round_keys@),
            self.mds_values(),
            self.full_rounds as nat,
            self.partial_rounds as nat,
            self.width as nat,
            self.exp as int,
            input,
        )
    }
}

/// Hashes field elements with `Poseidon::hash` of `arkworks_native_gadgets`. The call fails
/// only on more than `width - 1` inputs or on an S-box that needs the inverse of zero, and
/// indexes the round constants and MDS matrix only within the bounds that `wf` states.
#[verifier::external_body]
pub(crate) fn poseidon_hash_fields(p: &PoseidonParams, input: &[Fr]) -> (r: Fr)
    requires
        p.wf(),
        input.len() + 1 <= p.width,
    ensures
        r@ == poseidon_hash(
            values(p.round_keys@),
            p.mds_values(),
            p.full_rounds as nat,
            p.partial_rounds as nat,
            p.width as nat,
            p.exp as int,
            values(input@),
        ),
{
    let conv = |x: &Fr| ArkFr::from_repr(BigInteger256::new(x.limbs)).unwrap();
    let keys = p.round_keys.iter().map(conv).collect();
    let mds = p.mds_matrix.iter().map(|row| row.iter().map(conv).collect()).collect();
    let params = PoseidonParameters::new(
        keys, mds, p.full_rounds, p.partial_rounds, p.width, PoseidonSbox(p.exp));
    let inputs: Vec<ArkFr> = input.iter().map(conv).collect();
    Fr { limbs: Poseidon::new(params).hash(&inputs).unwrap().into_repr().0 }
}

/// Loads the published Poseidon parameters for a curve, S-box exponent and width.
pub fn setup_poseidon_params(curve: Curve, exp: i8, width: u8) -> (r: PoseidonParams)
    requires
        supported_params(curve, exp, width),
    ensures
        r.wf(),
        r.width == width,
        r.exp == exp,
        r.full_rounds == 8,
        r.partial_rounds == table_partial_rounds(width),
        values(r.round_keys@) == be_values(
            poseidon_tables(curve_id(curve), exp as int, width as int).1,
        ),
        r.mds_values().len() == width,
        forall|i: int|
            0 <= i < width ==> #[trigger] r.mds_values()[i] == be_values(
                poseidon_tables(curve_id(curve), exp as int, width as int).0[i],
            ),
{
    let data = load_poseidon_tables(curve, exp, width);
    let mds_f = bytes_matrix_to_f(&data.mds);
    let rounds_f = bytes_vec_to_f(&data.rounds);
    proof {
        let f = data.full_rounds as int;
        let pr = data.partial_rounds as int;
        let w = data.width as int;
        assert(f == 8 && w == width);
        if width == 3 {
            assert(pr == 57);
            assert((f + pr) * w == 195) by (nonlinear_arith)
                requires
                    f == 8,
                    pr == 57,
                    w == 3,
            ;
        } else {
            assert(pr == 60);
            assert((f + pr) * w == 340) by (nonlinear_arith)
                requires
                    f == 8,
                    pr == 60,
                    w == 5,
            ;
        }
        assert(values(rounds_f@).len() == rounds_f@.len());
        assert(be_values(data.rounds.deep_view()).len() == data.rounds.len());
        assert forall|i: int| 0 <= i < mds_f.len() implies #[trigger] mds_f[i].len() == width by {
            assert(values(mds_f[i]@).len() == mds_f[i]@.len());
            assert(be_values(data.mds[i].deep_view()).len() == data.mds[i].len());
        }
    }
    let r = PoseidonParams {
        mds_matrix: mds_f,
        round_keys: rounds_f,
        full_rounds: data.full_rounds,
        partial_rounds: data.partial_rounds,
        exp: data.exp,
        width: data.width,
    };
    proof {
        assert forall|i: int| 0 <= i < width implies #[trigger] r.mds_values()[i] == be_values(
            poseidon_tables(curve_id(curve), exp as int, width as int).0[i],
        ) by {
            assert(data.mds.deep_view()[i] == data.mds[i].deep_view());
        }
    }
    r
}

/// The width of the Poseidon instance that commitments and the two-to-one hash use: each call
/// absorbs at most four field elements.
pub const POSEIDON_WIDTH: u8 = 5;

/// Iterated Poseidon hash: the first block holds up to four elements; each later block holds
/// the running hash followed by up to three further elements.
pub open spec fn iterated_hash(p: PoseidonParams, input: Seq<nat>) -> nat {
    let first = if input.len() < 4 {
        input.len()
    } else {
        4
    };
    hash_chain(p, p.hash(input.take(first as int)), input.skip(first as int))
}

/// Absorbs `rest` into the running hash `acc`, three elements at a time.
pub open spec fn hash_chain(p: PoseidonParams, acc: nat, rest: Seq<nat>) -> nat
    decreases rest.len(),
{
    if rest.len() == 0 {
        acc
    } else {
        let n = if rest.len() < 3 {
            rest.len()
        } else {
            3
        };
        hash_chain(p, p.hash(seq![acc] + rest.take(n as int)), rest.skip(n as int))
    }
}

/// An input of at most four elements is hashed by a single Poseidon call.
pub proof fn lemma_short_input_is_one_hash(p: PoseidonParams, input: Seq<nat>)
    requires
        input.len() <= 4,
    ensures
        iterated_hash(p, input) == p.hash(input),
{
    assert(input.take(input.len() as int) =~= input);
    assert(input.skip(input.len() as int).len() == 0);
}

/// Appends `input[start..end]` to `out`.
pub(crate) fn push_range(out: &mut Vec<Fr>, input: &[Fr], start: usize, end: usize)
    requires
        start <= end <= input.len(),
    ensures
        final(out)@ == old(out)@ + input@.subrange(start as int, end as int),
{
    let mut i = start;
    while i < end
        invariant
            start <= i <= end <= input.len(),
            out@ == old(out)@ + input@.subrange(start as int, i as int),
        decreases end - i,
    {
        out.push(input[i]);
        i = i + 1;
        assert(out@ =~= old(out)@ + input@.subrange(start as int, i as int));
    }
}

/// The iterated Poseidon hash of `input` (see `iterated_hash`).
pub fn poseidon_iterated_hash(p: &PoseidonParams, input: &[Fr]) -> (r: Fr)
    requires
        p.wf(),
        p.width >= POSEIDON_WIDTH,
    ensures
        r@ == iterated_hash(*p, values(input@)),
{
    let ghost vals = values(input@);
    let n = input.len();
    let first_len = if n < 4 {
        n
    } else {
        4
    };
    let mut first: Vec<Fr> = Vec::new();
    push_range(&mut first, input, 0, first_len);
    proof {
        assert(values(first@) =~= vals.take(first_len as int));
    }
    let mut running = poseidon_hash_fields(p, first.as_slice());
    let mut pos = first_len;
    while pos < n
        invariant
            p.wf(),
            p.width >= POSEIDON_WIDTH,
            n == input.len(),
            vals == values(input@),
            first_len <= pos <= n,
            hash_chain(*p, running@, vals.skip(pos as int)) == iterated_hash(*p, vals),
        decreases n - pos,
    {
        let take = if n - pos < 3 {
            n - pos
        } else {
            3
        };
        let mut block: Vec<Fr> = Vec::new();
        block.push(running);
        push_range(&mut block, input, pos, pos + take);
        proof {
            let rest = vals.skip(pos as int);
            assert(values(block@) =~= seq![running@] + rest.take(take as int));
            assert(rest.skip(take as int) =~= vals.skip((pos + take) as int));
        }
        running = poseidon_hash_fields(p, block.as_slice());
        pos = pos + take;
    }
    proof {
        assert(vals.skip(n as int).len() == 0);
    }
    running
}

/// "pcom", the domain separator of commitments.
pub open spec fn com_domain_sep() -> Seq<u8> {
    seq![112u8, 99u8, 111u8, 109u8]
}

/// "pcrh", the domain separator of the two-to-one hash.
pub open spec fn crh_domain_sep() -> Seq<u8> {
    seq![112u8, 99u8, 114u8, 104u8]
}

/// The bytes that a commitment hashes: the separator, the randomness and the input.
pub open spec fn commitment_preimage(input: Seq<u8>, randomness: nat) -> Seq<u8> {
    com_domain_sep() + le_bytes(randomness, 32) + input
}

/// The commitment to `input` with the given randomness: `H("pcom" || r || input)`.
pub open spec fn commitment(p: PoseidonParams, input: Seq<u8>, randomness: nat) -> nat {
    iterated_hash(p, pack_bytes(commitment_preimage(input, randomness)))
}

/// The bytes that the two-to-one hash hashes.
pub open spec fn crh_preimage(left: Seq<u8>, right: Seq<u8>) -> Seq<u8> {
    crh_domain_sep() + left + right
}

/// The two-to-one hash of two 32-byte strings: `H("pcrh" || left || right)`.
pub open spec fn two_to_one_hash(p: PoseidonParams, left: Seq<u8>, right: Seq<u8>) -> nat {
    iterated_hash(p, pack_bytes(crh_preimage(left, right)))
}

/// Appends `b` to `out`.
fn push_bytes(out: &mut Vec<u8>, b: &[u8])
    ensures
        final(out)@ == old(out)@ + b@,
{
    let mut i: usize = 0;
    while i < b.len()
        invariant
            0 <= i <= b.len(),
            out@ == old(out)@ + b@.take(i as int),
        decreases b.len() - i,
    {
        out.push(b[i]);
        i = i + 1;
        assert(out@ =~= old(out)@ + b@.take(i as int));
    }
    assert(b@.take(b.len() as int) =~= b@);
}

/// A fresh vector holding the four separator bytes `a b c d`.
fn separator(a: u8, b: u8, c: u8, d: u8) -> (r: Vec<u8>)
    ensures
        r@ == seq![a, b, c, d],
{
    let mut v: Vec<u8> = Vec::new();
    v.push(a);
    v.push(b);
    v.push(c);
    v.push(d);
    assert(v@ =~= seq![a, b, c, d]);
    v
}

/// The commitment scheme `H("pcom" || randomness || input)` with Poseidon on BLS12-381.
pub struct Bls12PoseidonCommitter;

impl Bls12PoseidonCommitter {
    /// Commits to `input` with randomness `r`.
    pub fn commit(params: &PoseidonParams, input: &[u8], r: &Fr) -> (c: Fr)
        requires
            params.wf(),
            params.width >= POSEIDON_WIDTH,
        ensures
            c@ == commitment(*params, input@, r@),
            c@ == iterated_hash(
                *params,
                pack_bytes(seq![112u8, 99u8, 111u8, 109u8] + le_bytes(r@, 32) + input@),
            ),
    {
        let mut hash_input = separator(112, 99, 111, 109);
        let r_bytes = fr_to_bytes(r);
        push_bytes(&mut hash_input, r_bytes.as_slice());
        push_bytes(&mut hash_input, input);
        assert(hash_input@ =~= commitment_preimage(input@, r@));
        assert(hash_input@ =~= seq![112u8, 99u8, 111u8, 109u8] + le_bytes(r@, 32) + input@);
        let packed = bytes_to_field_elements(hash_input.as_slice());
        poseidon_iterated_hash(params, packed.as_slice())
    }
}

/// The two-to-one collision-resistant hash `H("pcrh" || left || right)` with Poseidon on
/// BLS12-381, used for the inner nodes of Merkle trees over 32-byte node encodings.
pub struct Bls12PoseidonCrh;

impl Bls12PoseidonCrh {
    /// Hashes two 32-byte strings together.
    pub fn evaluate(params: &PoseidonParams, left_input: &[u8], right_input: &[u8]) -> (h: Fr)
        requires
            params.wf(),
            params.width >= POSEIDON_WIDTH,
            left_input.len() == 32,
            right_input.len() == 32,
        ensures
            h@ == two_to_one_hash(*params, left_input@, right_input@),
            h@ == iterated_hash(
                *params,
                pack_bytes(seq![112u8, 99u8, 114u8, 104u8] + left_input@ + right_input@),
            ),
    {
        let mut hash_input = separator(112, 99, 114, 104);
        push_bytes(&mut hash_input, left_input);
        push_bytes(&mut hash_input, right_input);
        assert(hash_input@ =~= crh_preimage(left_input@, right_input@));
        assert(hash_input@ =~= seq![112u8, 99u8, 114u8, 104u8] + left_input@ + right_input@);
        let packed = bytes_to_field_elements(hash_input.as_slice());
        poseidon_iterated_hash(params, packed.as_slice())
    }
}

/// Domain separation: whatever the committed input and randomness, and whatever the two
/// 32-byte children, the first field element that a commitment absorbs differs from the first
/// one that the two-to-one hash absorbs, so the two uses of Poseidon never share a first block.
pub proof fn lemma_commitment_and_tree_hash_are_separated(
    input: Seq<u8>,
    randomness: nat,
    left: Seq<u8>,
    right: Seq<u8>,
)
    requires
        left.len() == 32,
        right.len() == 32,
    ensures
        pack_bytes(commitment_preimage(input, randomness))[0] != pack_bytes(
            crh_preimage(left, right),
        )[0],
{
    let c = commitment_preimage(input, randomness);
    let h = crh_preimage(left, right);
    crate::field::lemma_le_bytes_len(randomness, 32);
    assert(c.len() > pack_chunk_len());
    assert(h.len() > pack_chunk_len());
    assert(pack_bytes(c)[0] == le_nat(c.take(31)));
    assert(pack_bytes(h)[0] == le_nat(h.take(31)));
    if le_nat(c.take(31)) == le_nat(h.take(31)) {
        lemma_le_nat_injective(c.take(31), h.take(31));
        assert(c.take(31)[2] == c[2]);
        assert(h.take(31)[2] == h[2]);
        assert(c[2] == 111u8);
        assert(h[2] == 114u8);
    }
}

/// The commitment absorbs "pcom", the 32 little-endian bytes of the randomness and then the
/// whole input, every byte of it in order, whatever its length. So two different inputs never
/// share a preimage under the same randomness.
pub proof fn lemma_commitment_absorbs_whole_input(
    p: PoseidonParams,
    input: Seq<u8>,
    randomness: nat,
    other: Seq<u8>,
)
    ensures
        commitment(p, input, randomness) == iterated_hash(
            p,
            pack_bytes(seq![112u8, 99u8, 111u8, 109u8] + le_bytes(randomness, 32) + input),
        ),
        ({
            let x = commitment_preimage(input, randomness);
            &&& x.len() == 36 + input.len()
            &&& x.subrange(0, 4) == seq![112u8, 99u8, 111u8, 109u8]
            &&& le_nat(x.subrange(4, 36)) == randomness % crate::field::pow256(32)
            &&& x.subrange(36, x.len() as int) == input
        }),
        commitment_preimage(input, randomness) == commitment_preimage(other, randomness) ==> input
            == other,
{
    crate::field::lemma_le_bytes_len(randomness, 32);
    crate::field::lemma_le_bytes_value(randomness, 32);
    let x = commitment_preimage(input, randomness);
    assert(x =~= seq![112u8, 99u8, 111u8, 109u8] + le_bytes(randomness, 32) + input);
    assert(x.subrange(0, 4) =~= seq![112u8, 99u8, 111u8, 109u8]);
    assert(x.subrange(4, 36) =~= le_bytes(randomness, 32));
    assert(x.subrange(36, x.len() as int) =~= input);
    let y = commitment_preimage(other, randomness);
    if x == y {
        assert(y.subrange(36, y.len() as int) =~= other);
    }
}

/// The two-to-one hash absorbs "pcrh", then the left child's 32 bytes and then the right
/// child's 32 bytes, each in the order given. So the node hash tells the children apart and
/// keeps them in place.
pub proof fn lemma_two_to_one_hash_absorbs_children_in_order(
    p: PoseidonParams,
    left: Seq<u8>,
    right: Seq<u8>,
)
    requires
        left.len() == 32,
        right.len() == 32,
    ensures
        two_to_one_hash(p, left, right) == iterated_hash(
            p,
            pack_bytes(seq![112u8, 99u8, 114u8, 104u8] + left + right),
        ),
        ({
            let x = crh_preimage(left, right);
            &&& x.len() == 68
            &&& x.subrange(0, 4) == seq![112u8, 99u8, 114u8, 104u8]
            &&& forall|i: int| 0 <= i < 32 ==> #[trigger] x[4 + i] == left[i]
            &&& forall|i: int| 0 <= i < 32 ==> #[trigger] x[36 + i] == right[i]
        }),
{
    let x = crh_preimage(left, right);
    assert(x =~= seq![112u8, 99u8, 114u8, 104u8] + left + right);
    assert(x.subrange(0, 4) =~= seq![112u8, 99u8, 114u8, 104u8]);
}

} // verus!
