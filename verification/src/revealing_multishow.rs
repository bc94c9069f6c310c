//! Rate-limited showing that de-anonymises abusers: besides the hidden counter, each token
//! carries a point on a line whose intercept is the hash of the user's identifier and whose
//! slope is pseudorandom per (epoch, counter). Two showings with a repeated counter in an
//! epoch give two points on the same line, from which anyone can solve for the intercept.

use vstd::prelude::*;

use crate::attrs::AccountableAttrs;
use crate::field::{bytes_to_field_elements, fr_add, fr_mul, modulus, pack_bytes, values, Fr};
use crate::multishow::{hidden_ctr_value, lemma_counter_repeats};
use crate::poseidon_utils::{poseidon_hash_fields, push_range, PoseidonParams};

verus! {

/// `PRF'_seed(epoch || ctr)`, the slope of the line of a showing.
pub open spec fn slope_value(p: PoseidonParams, seed: nat, epoch: nat, ctr: nat) -> nat {
    p.hash(seq![124nat, seed, epoch, ctr])
}

/// `H(nonce)`, the abscissa at which the line is evaluated.
pub open spec fn nonce_hash_value(p: PoseidonParams, nonce: nat) -> nat {
    p.hash(seq![125nat, nonce])
}

/// `H(ID)`, the intercept of the line.
pub open spec fn id_hash_value(p: PoseidonParams, id: Seq<u8>) -> nat {
    p.hash(seq![125nat] + pack_bytes(id))
}

/// `H(ID) + H(nonce) * PRF'_seed(epoch || ctr)`, the point of the line for this showing.
pub open spec fn line_point_value(
    p: PoseidonParams,
    seed: nat,
    id: Seq<u8>,
    epoch: nat,
    ctr: nat,
    nonce: nat,
) -> nat {
    (id_hash_value(p, id) + nonce_hash_value(p, nonce) * slope_value(p, seed, epoch, ctr))
        % modulus()
}

/// A presentation token of a revealing showing.
#[derive(Clone, Copy)]
pub struct PresentationToken {
    hidden_ctr: Fr,
    hidden_line_point: Fr,
}

impl PresentationToken {
    /// The hidden counter, `PRF_seed(epoch || ctr)`.
    pub closed spec fn hidden_ctr(self) -> nat {
        self.hidden_ctr@
    }

    /// The hidden line point, `H(ID) + H(nonce) * PRF'_seed(epoch || ctr)`.
    pub closed spec fn hidden_line_point(self) -> nat {
        self.hidden_line_point@
    }
}

impl Default for PresentationToken {
    /// The token whose values are zero.
    fn default() -> (r: PresentationToken)
        ensures
            r.hidden_ctr() == 0,
            r.hidden_line_point() == 0,
    {
        PresentationToken { hidden_ctr: Fr::zero(), hidden_line_point: Fr::zero() }
    }
}

/// Hashes `[sep, seed, epoch, ctr]`.
fn prf(params: &PoseidonParams, sep: u8, seed: Fr, epoch: u64, ctr: u16) -> (r: Fr)
    requires
        params.wf(),
        params.width >= 5,
    ensures
        r@ == params.hash(seq![sep as nat, seed@, epoch as nat, ctr as nat]),
{
    let mut hash_input: Vec<Fr> = Vec::new();
    hash_input.push(Fr::from_u8(sep));
    hash_input.push(seed);
    hash_input.push(Fr::from_u64(epoch));
    hash_input.push(Fr::from_u16(ctr));
    assert(values(hash_input@) =~= seq![sep as nat, seed@, epoch as nat, ctr as nat]);
    poseidon_hash_fields(params, hash_input.as_slice())
}

/// Credentials that can produce revealing presentation tokens.
pub trait MultishowableAttrs: AccountableAttrs {
    /// The presentation token of this credential for the given epoch, counter and nonce.
    fn compute_presentation_token(
        &self,
        params: PoseidonParams,
        epoch: u64,
        ctr: u16,
        nonce: Fr,
    ) -> (t: PresentationToken)
        requires
            params.wf(),
            params.width >= 5,
            pack_bytes(self.id_bytes()).len() + 2 <= params.width,
        ensures
            t.hidden_ctr() == hidden_ctr_value(params, self.seed_value(), epoch as nat, ctr as nat),
            t.hidden_ctr() == params.hash(
                seq![123nat, self.seed_value(), epoch as nat, ctr as nat],
            ),
            t.hidden_line_point() == (id_hash_value(params, self.id_bytes()) + params.hash(
                seq![125nat, nonce@],
            ) * params.hash(seq![124nat, self.seed_value(), epoch as nat, ctr as nat]))
                % modulus(),
            t.hidden_line_point() == line_point_value(
                params,
                self.seed_value(),
                self.id_bytes(),
                epoch as nat,
                ctr as nat,
                nonce@,
            ),
    ;
}

impl<A: AccountableAttrs> MultishowableAttrs for A {
    fn compute_presentation_token(
        &self,
        params: PoseidonParams,
        epoch: u64,
        ctr: u16,
        nonce: Fr,
    ) -> (t: PresentationToken) {
        let id = self.get_id();
        let seed = self.get_seed();

        let hidden_ctr = prf(&params, 123, seed, epoch, ctr);

        let mut nonce_input: Vec<Fr> = Vec::new();
        nonce_input.push(Fr::from_u8(125));
        nonce_input.push(nonce);
        assert(values(nonce_input@) =~= seq![125nat, nonce@]);
        let nonce_hash = poseidon_hash_fields(&params, nonce_input.as_slice());

        let id_fields = bytes_to_field_elements(id.as_slice());
        let mut id_input: Vec<Fr> = Vec::new();
        id_input.push(Fr::from_u8(125));
        push_range(&mut id_input, id_fields.as_slice(), 0, id_fields.len());
        assert(id_fields@.subrange(0, id_fields.len() as int) =~= id_fields@);
        assert(values(id_input@) =~= seq![125nat] + values(id_fields@));
        let id_hash = poseidon_hash_fields(&params, id_input.as_slice());

        let slope = prf(&params, 124, seed, epoch, ctr);
        let product = fr_mul(&nonce_hash, &slope);
        let hidden_line_point = fr_add(&id_hash, &product);
        proof {
            let m = modulus() as int;
            vstd::arithmetic::div_mod::lemma_add_mod_noop_right(
                id_hash@ as int,
                nonce_hash@ as int * slope@ as int,
                m,
            );
        }
        PresentationToken { hidden_ctr, hidden_line_point }
    }
}

/// The public data and the private counter of a revealing showing: it asserts that the
/// token was computed from the credential for this epoch, counter and server nonce, and that
/// the counter is below the limit.
#[derive(Clone)]
pub struct RevealingMultishowChecker {
    /// The token of this showing.
    pub token: PresentationToken,
    /// The epoch of this showing.
    pub epoch: u64,
    /// The nonce that the server chose for this showing.
    pub nonce: Fr,
    /// How many times a credential may be shown per epoch.
    pub max_num_presentations: u16,
    /// How many times the credential was shown before in this epoch (private).
    pub ctr: u16,
    /// Poseidon parameters of the pseudorandom functions and hashes.
    pub params: PoseidonParams,
}

impl Default for RevealingMultishowChecker {
    /// A checker with zero public values and empty Poseidon parameters.
    fn default() -> (r: RevealingMultishowChecker)
        ensures
            r.token.hidden_ctr() == 0,
            r.token.hidden_line_point() == 0,
            r.epoch == 0,
            r.nonce@ == 0,
            r.max_num_presentations == 0,
            r.ctr == 0,
    {
        RevealingMultishowChecker {
            token: PresentationToken::default(),
            epoch: 0,
            nonce: Fr::zero(),
            max_num_presentations: 0,
            ctr: 0,
            params: PoseidonParams::default(),
        }
    }
}

impl RevealingMultishowChecker {
    /// The public inputs of the predicate (the attributes excluded): epoch, nonce, hidden
    /// counter, hidden line point and limit.
    pub fn public_inputs(&self) -> (r: Vec<Fr>)
        ensures
            values(r@) == seq![
                self.epoch as nat,
                self.nonce@,
                self.token.hidden_ctr(),
                self.token.hidden_line_point(),
                self.max_num_presentations as nat,
            ],
    {
        let mut r: Vec<Fr> = Vec::new();
        r.push(Fr::from_u64(self.epoch));
        r.push(self.nonce);
        r.push(self.token.hidden_ctr);
        r.push(self.token.hidden_line_point);
        r.push(Fr::from_u16(self.max_num_presentations));
        assert(values(r@) =~= seq![
            self.epoch as nat,
            self.nonce@,
            self.token.hidden_ctr(),
            self.token.hidden_line_point(),
            self.max_num_presentations as nat,
        ]);
        r
    }
}

/// Two showings of one credential in the same epoch with the same counter, answering the
/// nonces `nonce1` and `nonce2`, carry line points `y1`, `y2` that satisfy `y1 * H(nonce2) - y2 * H(nonce1) = H(ID) * (H(nonce2) - H(nonce1))` in the
/// field: when the two nonce hashes differ, anyone holding both tokens can solve for `H(ID)`.
pub proof fn lemma_repeated_counter_reveals_id(
    p: PoseidonParams,
    seed: nat,
    id: Seq<u8>,
    epoch: nat,
    ctr: nat,
    nonce1: nat,
    nonce2: nat,
)
    ensures
        ({
            let m = modulus() as int;
            let y1 = line_point_value(p, seed, id, epoch, ctr, nonce1) as int;
            let y2 = line_point_value(p, seed, id, epoch, ctr, nonce2) as int;
            let h1 = nonce_hash_value(p, nonce1) as int;
            let h2 = nonce_hash_value(p, nonce2) as int;
            (y1 * h2 - y2 * h1) % m == (id_hash_value(p, id) as int * (h2 - h1)) % m
        }),
{
    let m = modulus() as int;
    let id_h = id_hash_value(p, id) as int;
    let s = slope_value(p, seed, epoch, ctr) as int;
    let h1 = nonce_hash_value(p, nonce1) as int;
    let h2 = nonce_hash_value(p, nonce2) as int;
    let a = id_h + h1 * s;
    let b = id_h + h2 * s;
    let y1 = line_point_value(p, seed, id, epoch, ctr, nonce1) as int;
    let y2 = line_point_value(p, seed, id, epoch, ctr, nonce2) as int;
    assert(y1 == a % m);
    assert(y2 == b % m);
    vstd::arithmetic::div_mod::lemma_sub_mod_noop(y1 * h2, y2 * h1, m);
    vstd::arithmetic::div_mod::lemma_mul_mod_noop_left(a, h2, m);
    vstd::arithmetic::div_mod::lemma_mul_mod_noop_left(b, h1, m);
    vstd::arithmetic::div_mod::lemma_sub_mod_noop(a * h2, b * h1, m);
    assert(a * h2 - b * h1 == id_h * (h2 - h1)) by (nonlinear_arith)
        requires
            a == id_h + h1 * s,
            b == id_h + h2 * s,
    ;
}

/// The line point of a showing: the hash of 125 followed by the identifier's packed bytes,
/// plus the hash of 125 and the whole nonce field element times the hash of 124, the seed, the
/// epoch and the counter, reduced modulo the field order.
pub proof fn lemma_line_point_absorbs_nonce(
    p: PoseidonParams,
    seed: nat,
    id: Seq<u8>,
    epoch: nat,
    ctr: nat,
    nonce: nat,
)
    ensures
        nonce_hash_value(p, nonce) == p.hash(seq![125nat, nonce]),
        slope_value(p, seed, epoch, ctr) == p.hash(seq![124nat, seed, epoch, ctr]),
        id_hash_value(p, id) == p.hash(seq![125nat] + pack_bytes(id)),
        line_point_value(p, seed, id, epoch, ctr, nonce) == (p.hash(seq![125nat] + pack_bytes(id))
            + p.hash(seq![125nat, nonce]) * p.hash(seq![124nat, seed, epoch, ctr])) % modulus(),
{
}

/// What a revealing showing asserts of a credential with seed `seed` and identifier `id`: the
/// counter is below the limit, and the token carries the hidden counter and the line point of
/// the seed, identifier, epoch, counter and server nonce.
pub open spec fn revealing_holds(c: RevealingMultishowChecker, seed: nat, id: Seq<u8>) -> bool {
    &&& c.ctr < c.max_num_presentations
    &&& c.token.hidden_ctr() == hidden_ctr_value(c.params, seed, c.epoch as nat, c.ctr as nat)
    &&& c.token.hidden_line_point() == line_point_value(
        c.params,
        seed,
        id,
        c.epoch as nat,
        c.ctr as nat,
        c.nonce@,
    )
}

/// Accountability: when a credential passes more than `max` revealing showings in one epoch,
/// under one set of parameters and limits of at most `max`, two of them carry the same hidden
/// counter, and their line points `y1`, `y2` at nonce hashes `h1`, `h2` satisfy
/// `y1 * h2 - y2 * h1 = H(ID) * (h2 - h1)` in the field, which gives away `H(ID)` whenever the
/// two nonce hashes differ.
pub proof fn lemma_overuse_reveals_id(
    cs: Seq<RevealingMultishowChecker>,
    seed: nat,
    id: Seq<u8>,
    p: PoseidonParams,
    epoch: u64,
    max: nat,
)
    requires
        cs.len() > max,
        forall|k: int|
            0 <= k < cs.len() ==> #[trigger] revealing_holds(cs[k], seed, id) && cs[k].params == p
                && cs[k].epoch == epoch && cs[k].max_num_presentations <= max,
    ensures
        exists|i: int, j: int|
            #![trigger cs[i], cs[j]]
            0 <= i < j < cs.len() && cs[i].token.hidden_ctr() == cs[j].token.hidden_ctr() && ({
                let m = modulus() as int;
                let y1 = cs[i].token.hidden_line_point() as int;
                let y2 = cs[j].token.hidden_line_point() as int;
                let h1 = nonce_hash_value(p, cs[i].nonce@) as int;
                let h2 = nonce_hash_value(p, cs[j].nonce@) as int;
                (y1 * h2 - y2 * h1) % m == (id_hash_value(p, id) as int * (h2 - h1)) % m
            }),
{
    let ctrs = Seq::new(cs.len(), |k: int| cs[k].ctr as int);
    assert forall|k: int| 0 <= k < ctrs.len() implies 0 <= #[trigger] ctrs[k] < max by {
        assert(revealing_holds(cs[k], seed, id));
    }
    lemma_counter_repeats(ctrs, max);
    let (i, j) = choose|i: int, j: int|
        0 <= i < j < ctrs.len() && #[trigger] ctrs[i] == #[trigger] ctrs[j];
    assert(revealing_holds(cs[i], seed, id));
    assert(revealing_holds(cs[j], seed, id));
    assert(cs[i].ctr == cs[j].ctr);
    lemma_repeated_counter_reveals_id(
        p,
        seed,
        id,
        epoch as nat,
        cs[i].ctr as nat,
        cs[i].nonce@,
        cs[j].nonce@,
    );
}

} // verus!
