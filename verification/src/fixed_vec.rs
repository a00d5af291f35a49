//! The fixed-capacity vector both bounded buffers are built on.

use vstd::prelude::*;

verus! {

/// `heapless::Vec<T, N>`: a vector with inline storage for at most `N` items.
/// Its contents are visible to proofs only through the operations that the
/// buffers declare on it.
#[verifier::external_type_specification]
#[verifier::external_body]
#[verifier::reject_recursive_types(T)]
pub struct ExHeaplessVec<T, const N: usize>(heapless::Vec<T, N>);

} // verus!
