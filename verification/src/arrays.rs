//! Fixed-size arrays as values in proofs.
//!
//! Executable code obtains an array by filling one in. A proof that speaks of
//! every possible content needs to know that each content is that of some
//! array; this module shows it.

use vstd::prelude::*;

verus! {

/// An array that agrees with `content` on the first `n` positions.
spec fn filled_to<const N: usize>(content: Seq<u8>, n: nat) -> [u8; N]
    decreases n,
{
    if n == 0 {
        arbitrary()
    } else {
        vstd::array::spec_array_update(filled_to::<N>(content, (n - 1) as nat), n - 1, content[n - 1])
    }
}

proof fn lemma_filled_to<const N: usize>(content: Seq<u8>, n: nat)
    requires
        n <= N,
    ensures
        forall|i: int| 0 <= i < n ==> filled_to::<N>(content, n)@[i] == content[i],
    decreases n,
{
    if n > 0 {
        lemma_filled_to::<N>(content, (n - 1) as nat);
    }
}

/// Every sequence of `N` bytes is the view of an array of `N` bytes: the
/// result is such an array.
pub proof fn array_with_content<const N: usize>(content: Seq<u8>) -> (array: [u8; N])
    requires
        content.len() == N,
    ensures
        array@ == content,
{
    lemma_filled_to::<N>(content, N as nat);
    filled_to::<N>(content, N as nat)
}

} // verus!
