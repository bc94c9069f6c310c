//! Rate-limited showing: each showing of a credential carries a presentation token that is a
//! pseudorandom function of the credential's seed, the epoch and a counter, so that a service
//! that bounds the counter can limit how often a credential is shown per epoch.

use vstd::prelude::*;

use crate::attrs::AccountableAttrs;
use crate::field::{values, Fr};
use crate::poseidon_utils::{poseidon_hash_fields, PoseidonParams};
use vstd::set_lib::{lemma_int_range, lemma_len_subset, set_int_range};

verus! {

/// Domain separator of the pseudorandom function.
pub open spec fn prf1_domain_sep() -> nat {
    123
}

/// `PRF_seed(epoch || ctr)`, the hidden counter of a showing.
pub open spec fn hidden_ctr_value(p: PoseidonParams, seed: nat, epoch: nat, ctr: nat) -> nat {
    p.hash(seq![prf1_domain_sep(), seed, epoch, ctr])
}

/// A presentation token. Two tokens with the same hidden counter come from the same
/// credential, epoch and counter.
#[derive(Clone, Copy)]
pub struct PresentationToken {
    hidden_ctr: Fr,
}

impl PresentationToken {
    /// The hidden counter, `PRF_seed(epoch || ctr)`.
    pub closed spec fn hidden_ctr(self) -> nat {
        self.hidden_ctr@
    }
}

impl Default for PresentationToken {
    /// The token whose hidden counter is zero.
    fn default() -> (r: PresentationToken)
        ensures
            r.hidden_ctr() == 0,
    {
        PresentationToken { hidden_ctr: Fr::zero() }
    }
}

/// Credentials that can produce presentation tokens for rate-limited showing.
pub trait MultishowableAttrs: AccountableAttrs {
    /// The presentation token of this credential for the given epoch and counter.
    fn compute_presentation_token(&self, params: PoseidonParams, epoch: u64, ctr: u16) -> (t:
        PresentationToken)
        requires
            params.wf(),
            params.width >= 5,
        ensures
            t.hidden_ctr() == hidden_ctr_value(params, self.seed_value(), epoch as nat, ctr as nat),
            t.hidden_ctr() == params.hash(
                seq![123nat, self.seed_value(), epoch as nat, ctr as nat],
            ),
    ;
}

impl<A: AccountableAttrs> MultishowableAttrs for A {
    fn compute_presentation_token(&self, params: PoseidonParams, epoch: u64, ctr: u16) -> (t:
        PresentationToken) {
        let seed = self.get_seed();
        let mut hash_input: Vec<Fr> = Vec::new();
        hash_input.push(Fr::from_u8(123));
        hash_input.push(seed);
        hash_input.push(Fr::from_u64(epoch));
        hash_input.push(Fr::from_u16(ctr));
        assert(values(hash_input@) =~= seq![
            prf1_domain_sep(),
            self.seed_value(),
            epoch as nat,
            ctr as nat,
        ]);
        let hidden_ctr = poseidon_hash_fields(&params, hash_input.as_slice());
        PresentationToken { hidden_ctr }
    }
}

/// The public data and the private counter of a rate-limited showing: it asserts that the
/// token is the pseudorandom value of the credential's seed for this epoch and counter, and
/// that the counter is below the limit.
#[derive(Clone)]
pub struct MultishowChecker {
    /// The token of this showing.
    pub token: PresentationToken,
    /// The epoch of this showing.
    pub epoch: u64,
    /// How many times a credential may be shown per epoch.
    pub max_num_presentations: u16,
    /// How many times the credential was shown before in this epoch (private).
    pub ctr: u16,
    /// Poseidon parameters of the pseudorandom function.
    pub params: PoseidonParams,
}

impl Default for MultishowChecker {
    /// A checker with zero public values and empty Poseidon parameters.
    fn default() -> (r: MultishowChecker)
        ensures
            r.token.hidden_ctr() == 0,
            r.epoch == 0,
            r.max_num_presentations == 0,
            r.ctr == 0,
    {
        MultishowChecker {
            token: PresentationToken::default(),
            epoch: 0,
            max_num_presentations: 0,
            ctr: 0,
            params: PoseidonParams::default(),
        }
    }
}

impl MultishowChecker {
    /// The public inputs of the predicate (the attributes excluded): the epoch, the hidden
    /// counter and the limit.
    pub fn public_inputs(&self) -> (r: Vec<Fr>)
        ensures
            values(r@) == seq![
                self.epoch as nat,
                self.token.hidden_ctr(),
                self.max_num_presentations as nat,
            ],
    {
        let mut r: Vec<Fr> = Vec::new();
        r.push(Fr::from_u64(self.epoch));
        r.push(self.token.hidden_ctr);
        r.push(Fr::from_u16(self.max_num_presentations));
        assert(values(r@) =~= seq![
            self.epoch as nat,
            self.token.hidden_ctr(),
            self.max_num_presentations as nat,
        ]);
        r
    }
}

/// The hidden counter is the Poseidon hash of the domain separator 123, the seed, the whole
/// 64-bit epoch and the counter, in this order: two showings whose epochs or counters differ
/// hash different inputs.
pub proof fn lemma_hidden_ctr_absorbs_epoch_and_counter(
    p: PoseidonParams,
    seed: nat,
    epoch: u64,
    ctr: u16,
    other_epoch: u64,
    other_ctr: u16,
)
    ensures
        hidden_ctr_value(p, seed, epoch as nat, ctr as nat) == p.hash(
            seq![123nat, seed, epoch as nat, ctr as nat],
        ),
        (epoch != other_epoch || ctr != other_ctr) ==> seq![123nat, seed, epoch as nat, ctr as nat]
            != seq![123nat, seed, other_epoch as nat, other_ctr as nat],
{
    let a = seq![123nat, seed, epoch as nat, ctr as nat];
    let b = seq![123nat, seed, other_epoch as nat, other_ctr as nat];
    if a == b {
        assert(a[2] == b[2] && a[3] == b[3]);
    }
    assert(seq![prf1_domain_sep(), seed, epoch as nat, ctr as nat] =~= a);
}

/// What a rate-limited showing asserts of a credential with seed `seed`: the counter is below
/// the limit, and the token carries the pseudorandom value of the seed, epoch and counter.
pub open spec fn multishow_holds(c: MultishowChecker, seed: nat) -> bool {
    &&& c.ctr < c.max_num_presentations
    &&& c.token.hidden_ctr() == hidden_ctr_value(c.params, seed, c.epoch as nat, c.ctr as nat)
}

/// Pigeonhole on counters: more than `max` counters, each below `max`, repeat one.
pub proof fn lemma_counter_repeats(ctrs: Seq<int>, max: nat)
    requires
        ctrs.len() > max,
        forall|k: int| 0 <= k < ctrs.len() ==> 0 <= #[trigger] ctrs[k] < max,
    ensures
        exists|i: int, j: int| 0 <= i < j < ctrs.len() && #[trigger] ctrs[i] == #[trigger] ctrs[j],
{
    if !(exists|i: int, j: int| 0 <= i < j < ctrs.len() && #[trigger] ctrs[i] == #[trigger] ctrs[j]) {
        assert forall|i: int, j: int|
            0 <= i < ctrs.len() && 0 <= j < ctrs.len() && i != j implies ctrs[i] != ctrs[j] by {
            if ctrs[i] == ctrs[j] {
                if i < j {
                    assert(0 <= i < j < ctrs.len() && ctrs[i] == ctrs[j]);
                } else {
                    assert(0 <= j < i < ctrs.len() && ctrs[j] == ctrs[i]);
                }
            }
        }
        assert(ctrs.no_duplicates());
        ctrs.unique_seq_to_set();
        lemma_int_range(0, max as int);
        assert(ctrs.to_set().subset_of(set_int_range(0, max as int)));
        lemma_len_subset(ctrs.to_set(), set_int_range(0, max as int));
    }
}

/// Rate limiting: when a credential passes more than `max` showings in one epoch, under one
/// set of parameters and limits of at most `max`, two of those showings used the same counter
/// and carry the same hidden counter, so the verifier sees the repetition.
pub proof fn lemma_rate_limit(
    cs: Seq<MultishowChecker>,
    seed: nat,
    p: PoseidonParams,
    epoch: u64,
    max: nat,
)
    requires
        cs.len() > max,
        forall|k: int|
            0 <= k < cs.len() ==> #[trigger] multishow_holds(cs[k], seed) && cs[k].params == p
                && cs[k].epoch == epoch && cs[k].max_num_presentations <= max,
    ensures
        exists|i: int, j: int|
            #![trigger cs[i], cs[j]]
            0 <= i < j < cs.len() && cs[i].ctr == cs[j].ctr && cs[i].token.hidden_ctr()
                == cs[j].token.hidden_ctr(),
{
    let ctrs = Seq::new(cs.len(), |k: int| cs[k].ctr as int);
    assert forall|k: int| 0 <= k < ctrs.len() implies 0 <= #[trigger] ctrs[k] < max by {
        assert(multishow_holds(cs[k], seed));
    }
    lemma_counter_repeats(ctrs, max);
    let (i, j) = choose|i: int, j: int| 0 <= i < j < ctrs.len() && #[trigger] ctrs[i] == #[trigger] ctrs[j];
    assert(multishow_holds(cs[i], seed));
    assert(multishow_holds(cs[j], seed));
    assert(cs[i].ctr == cs[j].ctr);
}

} // verus!
