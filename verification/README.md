# zkcreds

Building blocks of anonymous credentials over general-purpose zero-knowledge proofs, written in
Verus. The library's logic under `src/` is verified: its public functions state in their
contracts what they return, and the laws that tie them together (serialisation, rate limiting,
linkability, de-anonymisation of overuse) are proof functions that Verus checks. Functions
whose result is chance, such as nonce sampling, state nothing of it.

## Layout

- `src/field.rs` — elements of the BLS12-381 scalar field (`Fr`), their byte encoding, and the
  packing of byte strings into field elements.
- `src/poseidon_utils.rs` — commitment nonces, loading of the published Poseidon parameters,
  the iterated Poseidon hash, the commitment `H("pcom" || r || input)` and the two-to-one
  hash `H("pcrh" || left || right)`.
- `src/attrs.rs` — the `Attrs` and `AccountableAttrs` traits; a commitment to attributes is
  derived deterministically from their nonce.
- `src/multishow.rs`, `src/pseudonymous_show.rs`, `src/revealing_multishow.rs` — presentation
  tokens for rate-limited, pseudonymous and de-anonymising rate-limited showing, what each
  showing predicate asserts natively, and the laws of each scheme.
- `src/com_forest.rs` — the roots of a commitment forest.
- `src/test_util.rs` — an example credential (`NameAndBirthYear`), its serialisation, and the
  age predicate.
- `src/joint_records.rs` — fixed-layout passport, student-card and employee-card records.
- `app/` — the arkworks side: `CRH`, `TwoToOneCRH` and `CommitmentScheme` implementations on
  top of the library, and the rank-1 constraint system gadgets and predicates.

The calls into arkworks (field arithmetic, Poseidon, parameter tables, encodings, sampling)
go through small trusted wrappers whose contracts state what the arkworks source does.
