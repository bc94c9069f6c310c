//! Small hash utilities: the identity function as a collision-resistant hash, used where a
//! Merkle tree stores commitments as leaves without hashing them.

use vstd::prelude::*;

verus! {

/// A "hash" that returns its input unchanged.
pub struct IdentityCRH;

impl IdentityCRH {
    /// Returns the input.
    pub fn evaluate(input: &[u8]) -> (r: Vec<u8>)
        ensures
            r@ == input@,
    {
        let mut out: Vec<u8> = Vec::new();
        let mut i: usize = 0;
        while i < input.len()
            invariant
                0 <= i <= input.len(),
                out@ == input@.take(i as int),
            decreases input.len() - i,
        {
            out.push(input[i]);
            i = i + 1;
            assert(out@ =~= input@.take(i as int));
        }
        assert(input@.take(input.len() as int) =~= input@);
        out
    }
}

} // verus!
