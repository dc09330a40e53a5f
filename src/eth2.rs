//! The interface of shard blocks: access to the block data being processed.
use crate::copy::{acquire, checked_copy, copy_in_bounds, Error};
use crate::host::{overwrite_prefix, Host, Resource};
use vstd::prelude::*;

verus! {

/// Returns the whole of the block data.
pub fn acquire_block_data<H: Host>(host: &H) -> (r: Vec<u8>)
    ensures
        r@ == host.contents(Resource::BlockData),
{
    acquire(host, &Resource::BlockData)
}

/// Copies the segment of the block data beginning at `from` and continuing for
/// `length` bytes into the start of `ret`.
pub fn block_data_copy<H: Host>(host: &H, from: usize, length: usize, ret: &mut [u8]) -> (r: Result<
    (),
    Error,
>)
    ensures
        r is Ok <==> copy_in_bounds(
            host.contents(Resource::BlockData).len() as int,
            from as int,
            length as int,
        ) && length <= old(ret)@.len(),
        r is Ok ==> final(ret)@ == overwrite_prefix(
            old(ret)@,
            host.contents(Resource::BlockData).subrange(from as int, from + length),
        ),
        r is Err ==> final(ret)@ == old(ret)@,
{
    checked_copy(host, &Resource::BlockData, from, length, ret)
}

} // verus!
