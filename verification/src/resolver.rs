//! Picking the backend executable out of the ordered candidate paths.

use vstd::prelude::*;

verus! {

/// Holds when none of the probed candidate paths exists.
pub open spec fn no_candidate(exists: Seq<bool>) -> bool {
    forall|j: int| 0 <= j < exists.len() ==> !exists[j]
}

/// Resolves the backend executable: returns the index of the first candidate
/// path that exists on the filesystem, or `None` when no candidate exists.
///
/// The filesystem itself is probed at the boundary, which hands in one
/// existence flag per candidate path, in the candidates' order.
pub fn resolve(exists: &Vec<bool>) -> (r: Option<usize>)
    ensures
        match r {
            Some(i) => i < exists@.len() && exists@[i as int] && forall|j: int|
                0 <= j < i ==> !exists@[j],
            None => no_candidate(exists@),
        },
{
    let n = exists.len();
    let mut i: usize = 0;
    while i < n
        invariant
            n == exists@.len(),
            i <= n,
            forall|j: int| 0 <= j < i ==> !exists@[j],
        decreases n - i,
    {
        if exists[i] {
            return Some(i);
        }
        i = i + 1;
    }
    None
}

} // verus!
