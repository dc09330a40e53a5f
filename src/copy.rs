//! The bounds-checked copy protocol for the host's variable-length resources.
//!
//! The host's raw copy reads past the end of a resource, or writes past the
//! end of the destination, if asked to. Every copy here first queries the
//! resource's size and refuses any range that does not lie within both the
//! resource and the destination; only then is the raw copy issued, once.
use crate::host::{overwrite_prefix, Host, Resource};
use crate::types::Address;
use crate::utils::unsafe_alloc_buffer;
use vstd::prelude::*;

verus! {

/// The error of a refused copy.
#[derive(Copy, Clone, Debug, PartialEq, Eq, Structural)]
pub enum Error {
    /// The requested range extends past the end of the resource or of the
    /// destination buffer.
    OutOfBoundsCopy,
}

/// The range of `length` bytes starting at `from` lies within a resource of
/// `size` bytes.
pub open spec fn copy_in_bounds(size: int, from: int, length: int) -> bool {
    from + length <= size
}

/// Decides whether a copy of `length` bytes from offset `from` of a resource
/// of `size` bytes into a buffer of `capacity` bytes may be issued.
///
/// The offset is compared with the size before the remaining length is
/// computed, so an offset past the end never wraps around into a pass.
pub fn check_copy(size: usize, from: usize, length: usize, capacity: usize) -> (r: Result<
    (),
    Error,
>)
    ensures
        r is Ok <==> copy_in_bounds(size as int, from as int, length as int) && length <= capacity,
        r is Err ==> r == Err::<(), Error>(Error::OutOfBoundsCopy),
{
    if size < from || size - from < length || capacity < length {
        Err(Error::OutOfBoundsCopy)
    } else {
        Ok(())
    }
}

/// Copies `length` bytes of `resource`, starting at `from`, into the first
/// `length` bytes of `ret`.
///
/// Succeeds exactly when the range lies within the resource and `ret` holds at
/// least `length` bytes; otherwise `ret` is left untouched.
pub fn checked_copy<H: Host>(
    host: &H,
    resource: &Resource,
    from: usize,
    length: usize,
    ret: &mut [u8],
) -> (r: Result<(), Error>)
    ensures
        r is Ok <==> copy_in_bounds(
            host.contents(*resource).len() as int,
            from as int,
            length as int,
        ) && length <= old(ret)@.len(),
        r is Ok ==> final(ret)@ == overwrite_prefix(
            old(ret)@,
            host.contents(*resource).subrange(from as int, from + length),
        ),
        r is Err ==> r == Err::<(), Error>(Error::OutOfBoundsCopy) && final(ret)@ == old(ret)@,
{
    let size = host.size(resource);
    match check_copy(size, from, length, ret.len()) {
        Ok(()) => {
            host.unsafe_copy(resource, from, length, ret);
            Ok(())
        },
        Err(e) => Err(e),
    }
}

/// Returns the whole of `resource` in a new buffer.
pub fn acquire<H: Host>(host: &H, resource: &Resource) -> (r: Vec<u8>)
    ensures
        r@ == host.contents(*resource),
{
    let length = host.size(resource);
    let mut ret = unsafe_alloc_buffer(length);
    host.unsafe_copy(resource, 0, length, ret.as_mut_slice());
    assert(ret@ =~= host.contents(*resource));
    ret
}

/// Returns all data passed with the currently executing call.
pub fn calldata_acquire<H: Host>(host: &H) -> (r: Vec<u8>)
    ensures
        r@ == host.contents(Resource::CallData),
{
    acquire(host, &Resource::CallData)
}

/// Copies the segment of call data beginning at `from` and continuing for
/// `length` bytes into the start of `ret`.
pub fn calldata_copy<H: Host>(host: &H, from: usize, length: usize, ret: &mut [u8]) -> (r: Result<
    (),
    Error,
>)
    ensures
        r is Ok <==> copy_in_bounds(
            host.contents(Resource::CallData).len() as int,
            from as int,
            length as int,
        ) && length <= old(ret)@.len(),
        r is Ok ==> final(ret)@ == overwrite_prefix(
            old(ret)@,
            host.contents(Resource::CallData).subrange(from as int, from + length),
        ),
        r is Err ==> final(ret)@ == old(ret)@,
{
    checked_copy(host, &Resource::CallData, from, length, ret)
}

/// Returns the currently executing code.
pub fn code_acquire<H: Host>(host: &H) -> (r: Vec<u8>)
    ensures
        r@ == host.contents(Resource::Code),
{
    acquire(host, &Resource::Code)
}

/// Copies the segment of the running code beginning at `from` and continuing
/// for `length` bytes into the start of `ret`.
pub fn code_copy<H: Host>(
    host: &H,
    from: usize,
    length: usize,
    ret: &mut [u8],
) -> (r: Result<(), Error>)
    ensures
        r is Ok <==> copy_in_bounds(
            host.contents(Resource::Code).len() as int,
            from as int,
            length as int,
        ) && length <= old(ret)@.len(),
        r is Ok ==> final(ret)@ == overwrite_prefix(
            old(ret)@,
            host.contents(Resource::Code).subrange(from as int, from + length),
        ),
        r is Err ==> final(ret)@ == old(ret)@,
{
    checked_copy(host, &Resource::Code, from, length, ret)
}

/// Returns the code deployed at `address`.
pub fn external_code_acquire<H: Host>(host: &H, address: &Address) -> (r: Vec<u8>)
    ensures
        r@ == host.contents(Resource::ExternalCode(*address)),
{
    acquire(host, &Resource::ExternalCode(*address))
}

/// Copies the segment of the code at `address` beginning at `from` and
/// continuing for `length` bytes into the start of `ret`.
pub fn external_code_copy<H: Host>(
    host: &H,
    address: &Address, from: usize,
    length: usize,
    ret: &mut [u8],
) -> (r: Result<(), Error>)
    ensures
        r is Ok <==> copy_in_bounds(
            host.contents(Resource::ExternalCode(*address)).len() as int,
            from as int,
            length as int,
        ) && length <= old(ret)@.len(),
        r is Ok ==> final(ret)@ == overwrite_prefix(
            old(ret)@,
            host.contents(Resource::ExternalCode(*address)).subrange(from as int, from + length),
        ),
        r is Err ==> final(ret)@ == old(ret)@,
{
    checked_copy(host, &Resource::ExternalCode(*address), from, length, ret)
}

/// Returns the data in the host's return buffer.
pub fn returndata_acquire<H: Host>(host: &H) -> (r: Vec<u8>)
    ensures
        r@ == host.contents(Resource::ReturnData),
{
    acquire(host, &Resource::ReturnData)
}

/// Copies the segment of the return buffer beginning at `from` and continuing
/// for `length` bytes into the start of `ret`.
pub fn returndata_copy<H: Host>(
    host: &H,
    from: usize,
    length: usize,
    ret: &mut [u8],
) -> (r: Result<(), Error>)
    ensures
        r is Ok <==> copy_in_bounds(
            host.contents(Resource::ReturnData).len() as int,
            from as int,
            length as int,
        ) && length <= old(ret)@.len(),
        r is Ok ==> final(ret)@ == overwrite_prefix(
            old(ret)@,
            host.contents(Resource::ReturnData).subrange(from as int, from + length),
        ),
        r is Err ==> final(ret)@ == old(ret)@,
{
    checked_copy(host, &Resource::ReturnData, from, length, ret)
}

/// A copy that starts at the end of a resource and has length zero lies
/// within it: it succeeds with nothing copied.
pub proof fn lemma_empty_copy_at_end_in_bounds(size: nat)
    ensures
        copy_in_bounds(size as int, size as int, 0),
{
}

/// An offset one past the end of a resource is refused even for a copy of
/// length zero.
pub proof fn lemma_offset_past_end_out_of_bounds(size: nat)
    ensures
        !copy_in_bounds(size as int, size + 1int, 0),
{
}

/// A copy lies within a resource exactly when its offset is at most the size
/// and its length at most what remains after the offset.
pub proof fn lemma_in_bounds_iff_offset_and_remainder(size: nat, from: nat, length: nat)
    ensures
        copy_in_bounds(size as int, from as int, length as int) <==> (from <= size && length
            <= size - from),
{
}

} // verus!
