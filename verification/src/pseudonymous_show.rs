//! Pseudonymous showing: every showing of a credential carries the same pseudonym, a
//! pseudorandom function of the credential's seed, so a service can recognise a returning
//! credential without learning anything else about it.

use vstd::prelude::*;

use crate::attrs::AccountableAttrs;
use crate::field::{values, Fr};
use crate::poseidon_utils::{poseidon_hash_fields, PoseidonParams};

verus! {

/// `PRF_seed(0)`, the pseudonym of a credential.
pub open spec fn pseudonym_value(p: PoseidonParams, seed: nat) -> nat {
    p.hash(seq![123nat, seed, 0nat])
}

/// The presentation token of a pseudonymous showing.
#[derive(Clone, Copy)]
pub struct PresentationToken {
    /// `PRF_seed(0)`.
    pub pseudonym: Fr,
}

impl Default for PresentationToken {
    /// The token whose pseudonym is zero.
    fn default() -> (r: PresentationToken)
        ensures
            r.pseudonym@ == 0,
    {
        PresentationToken { pseudonym: Fr::zero() }
    }
}

/// Credentials that can produce a pseudonym.
pub trait PseudonymousAttrs: AccountableAttrs {
    /// The presentation token (the pseudonym) of this credential.
    fn compute_presentation_token(&self, params: PoseidonParams) -> (t: PresentationToken)
        requires
            params.wf(),
            params.width >= 4,
        ensures
            t.pseudonym@ == pseudonym_value(params, self.seed_value()),
    ;
}

impl<A: AccountableAttrs> PseudonymousAttrs for A {
    fn compute_presentation_token(&self, params: PoseidonParams) -> (t: PresentationToken) {
        let seed = self.get_seed();
        let mut hash_input: Vec<Fr> = Vec::new();
        hash_input.push(Fr::from_u8(123));
        hash_input.push(seed);
        hash_input.push(Fr::from_u8(0));
        assert(values(hash_input@) =~= seq![123nat, self.seed_value(), 0nat]);
        let pseudonym = poseidon_hash_fields(&params, hash_input.as_slice());
        PresentationToken { pseudonym }
    }
}

/// The public data of a pseudonymous showing: it asserts that the token is the pseudonym of
/// the credential's seed.
#[derive(Clone)]
pub struct PseudonymousShowChecker {
    /// The token of this showing.
    pub token: PresentationToken,
    /// Poseidon parameters of the pseudorandom function.
    pub params: PoseidonParams,
}

impl Default for PseudonymousShowChecker {
    /// A checker with zero public values and empty Poseidon parameters.
    fn default() -> (r: PseudonymousShowChecker)
        ensures
            r.token.pseudonym@ == 0,
    {
        PseudonymousShowChecker {
            token: PresentationToken::default(),
            params: PoseidonParams::default(),
        }
    }
}

impl PseudonymousShowChecker {
    /// The public inputs of the predicate (the attributes excluded): the pseudonym.
    pub fn public_inputs(&self) -> (r: Vec<Fr>)
        ensures
            values(r@) == seq![self.token.pseudonym@],
    {
        let mut r: Vec<Fr> = Vec::new();
        r.push(self.token.pseudonym);
        assert(values(r@) =~= seq![self.token.pseudonym@]);
        r
    }
}

/// What a pseudonymous showing asserts of a credential with seed `seed`: the token carries the
/// pseudonym of that seed.
pub open spec fn pseudonymous_holds(c: PseudonymousShowChecker, seed: nat) -> bool {
    c.token.pseudonym@ == pseudonym_value(c.params, seed)
}

/// Linkability: all the showings of one credential that pass under one set of parameters carry
/// one and the same pseudonym, the one that its seed determines.
pub proof fn lemma_showings_share_one_pseudonym(
    cs: Seq<PseudonymousShowChecker>,
    seed: nat,
    p: PoseidonParams,
)
    requires
        cs.len() > 0,
        forall|k: int|
            0 <= k < cs.len() ==> #[trigger] pseudonymous_holds(cs[k], seed) && cs[k].params == p,
    ensures
        cs.map_values(|c: PseudonymousShowChecker| c.token.pseudonym@).to_set() == set![
            pseudonym_value(p, seed),
        ],
{
    let names = cs.map_values(|c: PseudonymousShowChecker| c.token.pseudonym@);
    assert forall|x: nat| names.to_set().contains(x) implies x == pseudonym_value(p, seed) by {
        let k = choose|k: int| 0 <= k < names.len() && names[k] == x;
        assert(pseudonymous_holds(cs[k], seed));
    }
    assert(pseudonymous_holds(cs[0], seed));
    assert(names[0] == pseudonym_value(p, seed));
    assert(names.to_set().contains(pseudonym_value(p, seed)));
    assert(names.to_set() =~= set![pseudonym_value(p, seed)]);
}

} // verus!
