//! Sizing of the buffers that the boundary hands to the host.
use vstd::prelude::*;

verus! {

/// Why a buffer could not be provided.
#[derive(Debug, Clone, Copy, PartialEq, Eq, Structural)]
pub enum AllocationError {
    /// The byte size does not fit in `usize`.
    SizeOverflow,
    /// The allocator had no block of that size.
    OutOfMemory,
}

/// How many bytes to request for a copy of `len` elements of `elem_size`
/// bytes each: nothing for an empty sequence (the host receives a null
/// buffer of length zero), and an error when the size overflows.
pub fn allocation_request(len: usize, elem_size: usize) -> (r: Result<Option<usize>, AllocationError>)
    ensures
        len == 0 ==> r == Ok::<Option<usize>, AllocationError>(None),
        len > 0 && len * elem_size <= usize::MAX ==> r == Ok::<Option<usize>, AllocationError>(Some((len * elem_size) as usize)),
        len > 0 && len * elem_size > usize::MAX ==> r == Err::<Option<usize>, AllocationError>(AllocationError::SizeOverflow),
{
    if len == 0 {
        return Ok(None);
    }
    match len.checked_mul(elem_size) {
        Some(bytes) => Ok(Some(bytes)),
        None => Err(AllocationError::SizeOverflow),
    }
}

/// Bytes reserved in front of each block of the host-side allocator shim,
/// which record the payload size; it is also the blocks' alignment.
pub const HEADER_BYTES: usize = 16;

/// The size of a block that holds the header and `size` bytes of payload;
/// none when that does not fit in `usize`.
pub fn block_size(size: usize) -> (r: Option<usize>)
    ensures
        size + HEADER_BYTES <= usize::MAX ==> r == Some((size + HEADER_BYTES) as usize),
        size + HEADER_BYTES > usize::MAX ==> r is None,
{
    size.checked_add(HEADER_BYTES)
}

} // verus!
