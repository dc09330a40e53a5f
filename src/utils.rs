//! General utilities.
use vstd::prelude::*;

verus! {

/// Allocates an owned buffer of `len` bytes, each zero.
///
/// Every byte is initialized, so a buffer that a copy fills only in part never
/// exposes uninitialized memory.
pub fn unsafe_alloc_buffer(len: usize) -> (r: Vec<u8>)
    ensures
        r@ == Seq::new(len as nat, |i: int| 0u8),
{
    let r: Vec<u8> = vec![0u8; len];
    assert(r@ =~= Seq::new(len as nat, |i: int| 0u8));
    r
}

} // verus!
