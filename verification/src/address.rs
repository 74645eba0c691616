//! From byte offsets to block indices and offsets within a block.

use vstd::prelude::*;

verus! {

/// Number of bytes in one block of the underlying device.
pub const BLOCK_SIZE: usize = 512;

/// Index of the block that holds the byte at `address`.
pub open spec fn block_of(address: u32) -> u32 {
    (address / 512) as u32
}

/// Position of the byte at `address` inside its block.
pub open spec fn offset_in_block(address: u32) -> nat {
    (address % 512) as nat
}

/// Whether `len` bytes starting at `offset` lie inside a single block.
pub open spec fn within_one_block(offset: u32, len: nat) -> bool {
    offset_in_block(offset) + len <= BLOCK_SIZE
}

/// Index of the block that holds the byte at `address`.
pub fn address_to_block(address: u32) -> (block: u32)
    ensures
        block == block_of(address),
        block * 512 <= address < (block + 1) * 512,
{
    let block: u32 = address / BLOCK_SIZE as u32;
    assert(block == address / 512);
    block
}

/// Splits a byte offset into the index of its block and its position inside
/// that block.
pub fn to_block_index(offset: u32) -> (place: (u32, usize))
    ensures
        place.0 == block_of(offset),
        place.1 == offset_in_block(offset),
        place.1 < BLOCK_SIZE,
        place.0 * 512 + place.1 == offset,
{
    let index: u32 = address_to_block(offset);
    let in_block: usize = (offset % BLOCK_SIZE as u32) as usize;
    (index, in_block)
}

/// Whether `len` bytes starting at `offset` lie inside a single block, which
/// is what one read or write of the adapter handles.
pub fn fits_in_one_block(offset: u32, len: usize) -> (fits: bool)
    ensures
        fits == within_one_block(offset, len as nat),
{
    let (_, in_block) = to_block_index(offset);
    len <= BLOCK_SIZE && in_block <= BLOCK_SIZE - len
}

} // verus!
