//! The traits that describe attributes: the data that a credential commits to and hides.

use vstd::prelude::*;

use crate::field::{seeded_field_element, seeded_fr, Fr};
use crate::poseidon_utils::{commitment, Bls12PoseidonCommitter, ComNonce, PoseidonParams, POSEIDON_WIDTH};

verus! {

/// The commitment to a set of attributes: the Poseidon commitment to their serialisation,
/// with randomness derived deterministically from their nonce.
pub open spec fn attrs_commitment(p: PoseidonParams, attr_bytes: Seq<u8>, nonce: Seq<u8>) -> nat {
    commitment(p, attr_bytes, seeded_field_element(nonce))
}

/// An object that holds attributes and a commitment nonce.
pub trait Attrs: Sized {
    /// The serialisation of the attributes, nonce excluded.
    spec fn attr_bytes(&self) -> Seq<u8>;

    /// The bytes of the commitment nonce.
    spec fn nonce_bytes(&self) -> Seq<u8>;

    /// Serialises everything but the nonce.
    fn to_bytes(&self) -> (r: Vec<u8>)
        ensures
            r@ == self.attr_bytes(),
    ;

    /// The nonce that seeds the commitment randomness.
    fn get_com_nonce(&self) -> (r: &ComNonce)
        ensures
            r.0@ == self.nonce_bytes(),
    ;

    /// Commits to the attributes, deterministically from the nonce and the parameters.
    fn commit(&self, params: &PoseidonParams) -> (c: Fr)
        requires
            params.wf(),
            params.width >= POSEIDON_WIDTH,
        ensures
            c@ == attrs_commitment(*params, self.attr_bytes(), self.nonce_bytes()),
    {
        let nonce_seed = self.get_com_nonce();
        let randomness = seeded_fr(&nonce_seed.0);
        let bytes = self.to_bytes();
        Bls12PoseidonCommitter::commit(params, bytes.as_slice(), &randomness)
    }
}

/// Attributes with an identifier of the user and a seed for the pseudorandom values of
/// pseudonymous and rate-limited showings.
pub trait AccountableAttrs: Attrs {
    /// The identifier's bytes.
    spec fn id_bytes(&self) -> Seq<u8>;

    /// The seed, as a field element.
    spec fn seed_value(&self) -> nat;

    /// The identifier.
    fn get_id(&self) -> (r: Vec<u8>)
        ensures
            r@ == self.id_bytes(),
    ;

    /// The seed.
    fn get_seed(&self) -> (r: Fr)
        ensures
            r@ == self.seed_value(),
    ;
}

} // verus!
