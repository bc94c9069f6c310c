//! Anonymous credentials over general-purpose zero-knowledge proofs: attribute commitments,
//! Poseidon hashing on BLS12-381, and the presentation tokens that rate-limit or pseudonymise
//! the showing of a credential.

pub mod field;
pub mod poseidon_utils;
pub mod zk_utils;
pub mod attrs;
pub mod multishow;
pub mod pseudonymous_show;
pub mod revealing_multishow;
pub mod com_forest;
pub mod test_util;
pub mod joint_records;
