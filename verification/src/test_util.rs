//! Example credential types: a credential holding a first name, a birth year and a
//! revocation status; an age predicate over it; and the window sizes of the Pedersen
//! commitments used alongside.

use vstd::prelude::*;

use crate::attrs::{AccountableAttrs, Attrs};
use crate::field::{fr_to_bytes, le_bytes, random_fr, values, Fr};
use crate::poseidon_utils::ComNonce;

use rand::rngs::StdRng;

verus! {

/// Pedersen window of 8 windows of 63 bits.
#[derive(Clone)]
pub struct Window8x63;

impl Window8x63 {
    pub const WINDOW_SIZE: usize = 63;
    pub const NUM_WINDOWS: usize = 8;
}

/// Pedersen window of 10 windows of 128 bits.
#[derive(Clone)]
pub struct Window8x128;

impl Window8x128 {
    pub const WINDOW_SIZE: usize = 128;
    pub const NUM_WINDOWS: usize = 10;
}

/// Pedersen window of 3 windows of 63 bits.
#[derive(Clone)]
pub struct Window3x63;

impl Window3x63 {
    pub const WINDOW_SIZE: usize = 63;
    pub const NUM_WINDOWS: usize = 3;
}

/// Pedersen window of 9 windows of 63 bits.
#[derive(Clone)]
pub struct Window9x63;

impl Window9x63 {
    pub const WINDOW_SIZE: usize = 63;
    pub const NUM_WINDOWS: usize = 9;
}

/// Pedersen window of 17 windows of 63 bits.
#[derive(Clone)]
pub struct Window17x63;

impl Window17x63 {
    pub const WINDOW_SIZE: usize = 63;
    pub const NUM_WINDOWS: usize = 17;
}

/// Length of the first-name field, in bytes.
pub const NAME_MAXLEN: usize = 16;

/// A name padded with zero bytes to `NAME_MAXLEN` bytes.
pub open spec fn padded_name(name: Seq<u8>) -> Seq<u8> {
    name + Seq::new((16 - name.len()) as nat, |i: int| 0u8)
}

/// The serialisation of a credential: the padded first name, the birth year in 32
/// little-endian bytes, the status byte (1 while not revoked) and the seed in 32
/// little-endian bytes. Everything but the nonce is serialised.
pub open spec fn name_and_birth_year_bytes(
    name: Seq<u8>,
    birth_year: nat,
    status: bool,
    seed: nat,
) -> Seq<u8> {
    name + le_bytes(birth_year, 32) + seq![if status { 1u8 } else { 0u8 }] + le_bytes(seed, 32)
}

/// A credential holding a person's first name and birth year.
#[derive(Clone, PartialEq, Eq)]
pub struct NameAndBirthYear {
    nonce: ComNonce,
    seed: Fr,
    first_name: [u8; 16],
    birth_year: Fr,
    status: bool,
}

impl NameAndBirthYear {
    /// The first name, padded with zero bytes.
    pub closed spec fn name(self) -> Seq<u8> {
        self.first_name@
    }

    /// The birth year, as a field element.
    pub closed spec fn birth_year(self) -> nat {
        self.birth_year@
    }

    /// Whether the credential is still valid (not revoked).
    pub closed spec fn status(self) -> bool {
        self.status
    }

    /// The commitment nonce.
    pub closed spec fn nonce(self) -> Seq<u8> {
        self.nonce.0@
    }

    /// The pseudorandom seed.
    pub closed spec fn seed(self) -> nat {
        self.seed@
    }

    /// The first name, padded with zero bytes.
    pub fn first_name(&self) -> (r: &[u8])
        ensures
            r@ == self.name(),
    {
        self.first_name.as_slice()
    }

    /// A credential with the given name, birth year, nonce and seed, not revoked.
    fn from_parts(first_name: &[u8], birth_year: u16, nonce: ComNonce, seed: Fr) -> (r:
        NameAndBirthYear)
        requires
            first_name.len() <= NAME_MAXLEN,
        ensures
            r.name() == padded_name(first_name@),
            r.birth_year() == birth_year,
            r.status(),
            r.nonce() == nonce.0@,
            r.seed() == seed@,
    {
        let mut name_buf = [0u8; 16];
        let mut i: usize = 0;
        while i < first_name.len()
            invariant
                0 <= i <= first_name.len() <= 16,
                forall|j: int| 0 <= j < i ==> name_buf[j] == first_name@[j],
                forall|j: int| i <= j < 16 ==> name_buf[j] == 0u8,
            decreases first_name.len() - i,
        {
            name_buf[i] = first_name[i];
            i = i + 1;
        }
        assert(name_buf@ =~= padded_name(first_name@));
        NameAndBirthYear {
            nonce,
            seed,
            first_name: name_buf,
            birth_year: Fr::from_u16(birth_year),
            status: true,
        }
    }

    /// A new credential with a random nonce and seed drawn from `rng`.
    pub fn new(rng: &mut StdRng, first_name: &[u8], birth_year: u16) -> (r: NameAndBirthYear)
        requires
            first_name.len() <= NAME_MAXLEN,
        ensures
            r.name() == padded_name(first_name@),
            r.birth_year() == birth_year,
            r.status(),
    {
        let nonce = ComNonce::rand(rng);
        let seed = random_fr(rng);
        NameAndBirthYear::from_parts(first_name, birth_year, nonce, seed)
    }

    /// A new credential with a random nonce drawn from `rng` and the given seed.
    pub fn new_with_seed(rng: &mut StdRng, first_name: &[u8], birth_year: u16, seed: Fr) -> (r:
        NameAndBirthYear)
        requires
            first_name.len() <= NAME_MAXLEN,
        ensures
            r.name() == padded_name(first_name@),
            r.birth_year() == birth_year,
            r.status(),
            r.seed() == seed@,
    {
        let mut attrs = NameAndBirthYear::new(rng, first_name, birth_year);
        attrs.seed = seed;
        attrs
    }

    /// A readable description of the credential's status.
    pub fn status_text(&self) -> (r: &'static str)
        ensures
            self.status() ==> r@ == "凭证未撤销"@,
            !self.status() ==> r@ == "凭证已撤销"@,
    {
        if self.status {
            "凭证未撤销"
        } else {
            "凭证已撤销"
        }
    }

    /// Marks the credential as revoked.
    pub fn revoke(&mut self)
        ensures
            !final(self).status(),
            final(self).name() == old(self).name(),
            final(self).birth_year() == old(self).birth_year(),
            final(self).nonce() == old(self).nonce(),
            final(self).seed() == old(self).seed(),
    {
        self.status = false;
    }

    /// Whether the credential has been revoked.
    pub fn is_revoked(&self) -> (r: bool)
        ensures
            r == !self.status(),
    {
        !self.status
    }
}

impl Default for NameAndBirthYear {
    /// The all-zero credential (zero nonce, seed, name and birth year), marked revoked.
    fn default() -> (r: NameAndBirthYear)
        ensures
            r.name() == Seq::new(16, |i: int| 0u8),
            r.birth_year() == 0,
            !r.status(),
            r.seed() == 0,
            r.nonce() == Seq::new(32, |i: int| 0u8),
    {
        let r = NameAndBirthYear {
            nonce: ComNonce([0u8; 32]),
            seed: Fr::zero(),
            first_name: [0u8; 16],
            birth_year: Fr::zero(),
            status: false,
        };
        assert(r.name() =~= Seq::new(16, |i: int| 0u8));
        assert(r.nonce() =~= Seq::new(32, |i: int| 0u8));
        r
    }
}

impl Attrs for NameAndBirthYear {
    open spec fn attr_bytes(&self) -> Seq<u8> {
        name_and_birth_year_bytes(self.name(), self.birth_year(), self.status(), self.seed())
    }

    open spec fn nonce_bytes(&self) -> Seq<u8> {
        self.nonce()
    }

    fn to_bytes(&self) -> (r: Vec<u8>) {
        let mut buf: Vec<u8> = Vec::new();
        let mut i: usize = 0;
        while i < 16
            invariant
                0 <= i <= 16,
                buf@ == self.first_name@.take(i as int),
            decreases 16 - i,
        {
            buf.push(self.first_name[i]);
            i = i + 1;
            assert(buf@ =~= self.first_name@.take(i as int));
        }
        let year = fr_to_bytes(&self.birth_year);
        let mut j: usize = 0;
        while j < year.len()
            invariant
                0 <= j <= year.len(),
                buf@ == self.first_name@ + year@.take(j as int),
            decreases year.len() - j,
        {
            buf.push(year[j]);
            j = j + 1;
            assert(buf@ =~= self.first_name@ + year@.take(j as int));
        }
        buf.push(if self.status { 1u8 } else { 0u8 });
        assert(year@.take(year.len() as int) =~= year@);
        let ghost head = buf@;
        let seed = fr_to_bytes(&self.seed);
        let mut k: usize = 0;
        while k < seed.len()
            invariant
                0 <= k <= seed.len(),
                buf@ == head + seed@.take(k as int),
            decreases seed.len() - k,
        {
            buf.push(seed[k]);
            k = k + 1;
            assert(buf@ =~= head + seed@.take(k as int));
        }
        assert(seed@.take(seed.len() as int) =~= seed@);
        assert(buf@ =~= self.attr_bytes());
        buf
    }

    fn get_com_nonce(&self) -> (r: &ComNonce) {
        &self.nonce
    }
}

impl AccountableAttrs for NameAndBirthYear {
    open spec fn id_bytes(&self) -> Seq<u8> {
        self.name()
    }

    open spec fn seed_value(&self) -> nat {
        self.seed()
    }

    fn get_id(&self) -> (r: Vec<u8>) {
        let mut v: Vec<u8> = Vec::new();
        let mut i: usize = 0;
        while i < 16
            invariant
                0 <= i <= 16,
                v@ == self.first_name@.take(i as int),
            decreases 16 - i,
        {
            v.push(self.first_name[i]);
            i = i + 1;
            assert(v@ =~= self.first_name@.take(i as int));
        }
        assert(self.first_name@.take(16) =~= self.first_name@);
        v
    }

    fn get_seed(&self) -> (r: Fr) {
        self.seed
    }
}

/// The predicate "born in or before `threshold_birth_year` and not revoked".
#[derive(Clone, Copy)]
pub struct AgeChecker {
    pub threshold_birth_year: Fr,
}

impl AgeChecker {
    /// The public inputs of the predicate (the attributes excluded): the threshold year.
    pub fn public_inputs(&self) -> (r: Vec<Fr>)
        ensures
            values(r@) == seq![self.threshold_birth_year@],
    {
        let mut r: Vec<Fr> = Vec::new();
        r.push(self.threshold_birth_year);
        assert(values(r@) =~= seq![self.threshold_birth_year@]);
        r
    }
}

/// Whether a credential satisfies the age predicate with the given threshold year: born in or
/// before the threshold, and not revoked. This is what the predicate's circuit enforces.
pub open spec fn age_holds(a: NameAndBirthYear, threshold_birth_year: nat) -> bool {
    a.birth_year() <= threshold_birth_year && a.status()
}

/// A revoked credential satisfies no age predicate, whatever its birth year.
pub proof fn lemma_revoked_credential_fails_age(a: NameAndBirthYear, threshold_birth_year: nat)
    requires
        !a.status(),
    ensures
        !age_holds(a, threshold_birth_year),
{
}

/// The serialisation determines every attribute: two credentials with the same bytes have the
/// same name, birth year, status and seed. So the commitment, which hashes these bytes, binds
/// all of them.
pub proof fn lemma_serialisation_is_injective(a: NameAndBirthYear, b: NameAndBirthYear)
    requires
        a.attr_bytes() == b.attr_bytes(),
    ensures
        a.name() == b.name(),
        a.birth_year() == b.birth_year(),
        a.status() == b.status(),
        a.seed() == b.seed(),
{
    let x = a.attr_bytes();
    crate::field::lemma_le_bytes_len(a.birth_year(), 32);
    crate::field::lemma_le_bytes_len(b.birth_year(), 32);
    crate::field::lemma_le_bytes_len(a.seed(), 32);
    crate::field::lemma_le_bytes_len(b.seed(), 32);
    assert(a.name().len() == 16 && b.name().len() == 16);
    assert(x.subrange(0, 16) =~= a.name());
    assert(b.attr_bytes().subrange(0, 16) =~= b.name());
    assert(x.subrange(16, 48) =~= le_bytes(a.birth_year(), 32));
    assert(b.attr_bytes().subrange(16, 48) =~= le_bytes(b.birth_year(), 32));
    assert(x.subrange(49, 81) =~= le_bytes(a.seed(), 32));
    assert(b.attr_bytes().subrange(49, 81) =~= le_bytes(b.seed(), 32));
    assert(x[48] == (if a.status() { 1u8 } else { 0u8 }));
    assert(b.attr_bytes()[48] == (if b.status() { 1u8 } else { 0u8 }));
    Fr::lemma_below_modulus(a.birth_year);
    Fr::lemma_below_modulus(b.birth_year);
    Fr::lemma_below_modulus(a.seed);
    Fr::lemma_below_modulus(b.seed);
    crate::field::lemma_encoding_round_trip(a.birth_year());
    crate::field::lemma_encoding_round_trip(b.birth_year());
    crate::field::lemma_encoding_round_trip(a.seed());
    crate::field::lemma_encoding_round_trip(b.seed());
}

/// The status is committed: a revoked copy of a valid credential serialises to the same
/// bytes except the status byte, which turns from 1 to 0, so its commitment preimage differs.
pub proof fn lemma_revocation_changes_committed_bytes(valid: NameAndBirthYear, revoked: NameAndBirthYear)
    requires
        valid.status(),
        !revoked.status(),
        revoked.name() == valid.name(),
        revoked.birth_year() == valid.birth_year(),
        revoked.seed() == valid.seed(),
    ensures
        revoked.attr_bytes() == valid.attr_bytes().update(48, 0u8),
        revoked.attr_bytes() != valid.attr_bytes(),
{
    crate::field::lemma_le_bytes_len(valid.birth_year(), 32);
    crate::field::lemma_le_bytes_len(valid.seed(), 32);
    assert(valid.name().len() == 16);
    assert(revoked.attr_bytes() =~= valid.attr_bytes().update(48, 0u8));
    assert(valid.attr_bytes()[48] == 1u8);
}

} // verus!
