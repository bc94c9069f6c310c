//! The roots of a forest of commitment trees, the public data against which a credential
//! proves that its tree belongs to the forest.

use vstd::prelude::*;

use crate::field::{values, Fr};

verus! {

/// The roots of the trees of a commitment forest (roots of the Poseidon two-to-one hash).
#[derive(Clone)]
pub struct ComForestRoots {
    pub roots: Vec<Fr>,
}

impl ComForestRoots {
    /// `num_trees` roots, all the default (zero) root.
    pub fn new(num_trees: usize) -> (r: ComForestRoots)
        ensures
            r.roots@.len() == num_trees,
            forall|i: int| 0 <= i < num_trees ==> #[trigger] r.roots@[i]@ == 0,
    {
        let mut roots: Vec<Fr> = Vec::new();
        let mut i: usize = 0;
        while i < num_trees
            invariant
                0 <= i <= num_trees,
                roots@.len() == i,
                forall|j: int| 0 <= j < i ==> #[trigger] roots@[j]@ == 0,
            decreases num_trees - i,
        {
            roots.push(Fr::zero());
            i = i + 1;
        }
        ComForestRoots { roots }
    }

    /// The public inputs of a forest-membership proof: the field elements of every root, in
    /// order (a root is a single field element).
    pub fn public_inputs(&self) -> (r: Vec<Fr>)
        ensures
            values(r@) == values(self.roots@),
    {
        let mut r: Vec<Fr> = Vec::new();
        let mut i: usize = 0;
        while i < self.roots.len()
            invariant
                0 <= i <= self.roots.len(),
                r@ == self.roots@.take(i as int),
            decreases self.roots.len() - i,
        {
            r.push(self.roots[i]);
            i = i + 1;
            assert(r@ =~= self.roots@.take(i as int));
        }
        assert(self.roots@.take(self.roots.len() as int) =~= self.roots@);
        r
    }
}

} // verus!
