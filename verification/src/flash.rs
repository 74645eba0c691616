//! The flash adapter: byte-granular `read`, `write` and `erase` over a block
//! device, through a cache of one block.
//!
//! Each operation is a step function. It is called with `Event::Start`, and
//! again with the outcome of each transfer it asked for, until it answers
//! `Action::Done`. Between the calls the driver performs the transfer on the
//! device.

use crate::address::{
    address_to_block, block_of, offset_in_block, to_block_index, within_one_block, BLOCK_SIZE,
};
use crate::cache::{
    ensure_loaded_step, overlay, write_back_step, zero_block, zeroed_block, BlockCache, CacheState,
    Step,
};
use crate::error::Error;
use crate::protocol::{Action, ActionView, Event, EventView};
use vstd::prelude::*;

verus! {

/// The smallest number of bytes that `read` takes.
pub const READ_SIZE: usize = 1;

/// The smallest number of bytes that `write` takes.
pub const WRITE_SIZE: usize = 1;

/// The unit of `erase`: one block.
pub const ERASE_SIZE: usize = BLOCK_SIZE;

/// The fixed shape of the device behind the adapter.
#[derive(Clone, Copy, Debug, PartialEq, Eq, Structural)]
pub struct DeviceGeometry {
    /// Bytes per block.
    pub block_size: usize,
    /// Bytes on the device.
    pub capacity_bytes: usize,
}

/// The adapter's state as a mathematical value.
pub struct AdapterState {
    /// The device's capacity in bytes, as configured.
    pub capacity: nat,
    /// What the cache holds.
    pub cache: CacheState,
}

/// The `len` bytes at `offset`, taken from the resident block.
pub open spec fn cached_bytes(cache: CacheState, offset: u32, len: nat) -> Seq<u8> {
    cache->block.subrange(offset_in_block(offset) as int, (offset_in_block(offset) + len) as int)
}

/// One step of a read at `offset`: a step of making the block of `offset`
/// resident. When that is done, the read is done.
pub open spec fn read_step<E>(cache: CacheState, offset: u32, event: EventView<E>) -> Step<E> {
    ensure_loaded_step(cache, block_of(offset), event)
}

/// The caller's buffer after one step of a read at `offset`: filled from the
/// resident block when the step ends the read with success, untouched
/// otherwise.
pub open spec fn read_bytes<E>(
    cache: CacheState,
    offset: u32,
    bytes: Seq<u8>,
    event: EventView<E>,
) -> Seq<u8> {
    let step = read_step(cache, offset, event);
    if step.action == ActionView::<E>::Done(Ok(())) {
        cached_bytes(step.cache, offset, bytes.len())
    } else {
        bytes
    }
}

/// Whether `event` tells how the write-back of block `index` went, which it
/// can only do while that block is resident.
pub open spec fn answers_write_back<E>(cache: CacheState, index: u32, event: EventView<E>) -> bool {
    &&& cache.holds(index)
    &&& event matches EventView::BlockWritten { index: answered, .. }
    &&& answered == index
}

/// One step of writing `data` at `offset`. Read, modify, write: first the
/// block of `offset` is made resident; when it is, `data` is laid over it
/// and the whole block is to be written back; the outcome of that write-back
/// ends the write.
pub open spec fn write_step<E>(
    cache: CacheState,
    offset: u32,
    data: Seq<u8>,
    event: EventView<E>,
) -> Step<E> {
    let index = block_of(offset);
    if answers_write_back(cache, index, event) {
        write_back_step(cache, index, event)
    } else {
        let loaded = ensure_loaded_step(cache, index, event);
        if loaded.action == ActionView::<E>::Done(Ok(())) {
            write_back_step(
                CacheState::Loaded {
                    index,
                    block: overlay(loaded.cache->block, offset_in_block(offset) as int, data),
                },
                index,
                EventView::Start,
            )
        } else {
            loaded
        }
    }
}

/// Whether `erase(from, to)` zeroes block `index`: it zeroes the blocks that
/// share at least one byte with `[from, to)`, each of them whole.
pub open spec fn erases(from: u32, to: u32, index: u32) -> bool {
    from < to && block_of(from) <= index <= block_of((to - 1) as u32)
}

/// The blocks that an erase zeroes are those that hold a byte of its range:
/// with block-aligned bounds, the blocks from `from / BLOCK_SIZE` up to, not
/// including, `to / BLOCK_SIZE`; a block that the range covers in part is
/// zeroed whole.
pub proof fn erase_zeroes_the_blocks_of_its_range(from: u32, to: u32, index: u32)
    ensures
        erases(from, to, index) <==> exists|address: u32|
            from <= address < to && #[trigger] block_of(address) == index,
        from % 512 == 0 && to % 512 == 0 ==> (erases(from, to, index) <==> from / 512 <= index < to
            / 512),
{
    if erases(from, to, index) {
        let address = if from <= index * 512 {
            (index * 512) as u32
        } else {
            from
        };
        assert(from <= address < to && block_of(address) == index);
    }
}

/// An erase with no news from the device: the first block of the range is
/// to be zeroed; with an empty range the erase is over and the cache empty.
pub open spec fn erase_start<E>(cache: CacheState, from: u32, to: u32) -> Step<E> {
    if from < to {
        Step { cache, action: ActionView::WriteBlock { index: block_of(from), data: zero_block() } }
    } else {
        Step { cache: CacheState::Empty, action: ActionView::Done(Ok(())) }
    }
}

/// One step of `erase(from, to)`. When a block of the range has been zeroed,
/// the next one is to be zeroed; after the last one the erase is over. It is
/// also over when the device fails on a block of the range. Whenever the
/// erase is over the cache is empty. Any other event is no news.
pub open spec fn erase_step<E>(cache: CacheState, from: u32, to: u32, event: EventView<E>) -> Step<
    E,
> {
    match event {
        EventView::BlockWritten { index, outcome } => if erases(from, to, index) {
            match outcome {
                Ok(_) => if erases(from, to, (index + 1) as u32) {
                    Step {
                        cache,
                        action: ActionView::WriteBlock {
                            index: (index + 1) as u32,
                            data: zero_block(),
                        },
                    }
                } else {
                    Step { cache: CacheState::Empty, action: ActionView::Done(Ok(())) }
                },
                Err(e) => Step {
                    cache: CacheState::Empty,
                    action: ActionView::Done(Err(Error::Sd(e))),
                },
            }
        } else {
            erase_start(cache, from, to)
        },
        _ => erase_start(cache, from, to),
    }
}

/// A NOR-flash-style adapter over a block device with 512-byte blocks.
pub struct SdSpi {
    card_capacity: u32,
    cache: BlockCache,
}

impl View for SdSpi {
    type V = AdapterState;

    closed spec fn view(&self) -> AdapterState {
        AdapterState { capacity: self.card_capacity as nat, cache: self.cache@ }
    }
}

impl SdSpi {
    /// An adapter for a device of `card_capacity` bytes, with an empty cache.
    pub fn new(card_capacity: u32) -> (adapter: SdSpi)
        ensures
            adapter@.capacity == card_capacity,
            adapter@.cache == CacheState::Empty,
    {
        SdSpi { card_capacity, cache: BlockCache::new() }
    }

    /// The device's capacity in bytes, as given to `new`.
    pub fn capacity(&self) -> (bytes: usize)
        ensures
            bytes == self@.capacity,
    {
        self.card_capacity as usize
    }

    /// The device's block size and capacity.
    pub fn geometry(&self) -> (geometry: DeviceGeometry)
        ensures
            geometry.block_size == BLOCK_SIZE,
            geometry.capacity_bytes == self@.capacity,
    {
        DeviceGeometry { block_size: BLOCK_SIZE, capacity_bytes: self.card_capacity as usize }
    }

    /// The index of the block that the cache holds, if it holds one.
    pub fn cached_index(&self) -> (index: Option<u32>)
        ensures
            match index {
                Some(i) => self@.cache.holds(i),
                None => self@.cache == CacheState::Empty,
            },
    {
        self.cache.cached_index()
    }

    /// The cache is always well formed.
    pub proof fn cache_is_well_formed(self)
        ensures
            self@.cache.well_formed(),
    {
        self.cache.view_is_well_formed();
    }

    /// One step of reading `bytes.len()` bytes at `offset` into `bytes`.
    /// The bytes must lie inside one block.
    pub fn read<E>(&mut self, offset: u32, bytes: &mut [u8], event: Event<E>) -> (action: Action<E>)
        requires
            within_one_block(offset, old(bytes)@.len()),
        ensures
            final(self)@.capacity == old(self)@.capacity,
            final(self)@.cache == read_step(old(self)@.cache, offset, event@).cache,
            action@ == read_step(old(self)@.cache, offset, event@).action,
            final(bytes)@ == read_bytes(old(self)@.cache, offset, old(bytes)@, event@),
    {
        let (index, start) = to_block_index(offset);
        let action = self.cache.ensure_loaded(index, event);
        match action {
            Action::Done(Ok(_)) => {
                self.cache.read(start, bytes);
            },
            _ => {},
        }
        action
    }

    /// One step of writing `data` at `offset`. The bytes must lie inside one
    /// block.
    pub fn write<E>(&mut self, offset: u32, data: &[u8], event: Event<E>) -> (action: Action<E>)
        requires
            within_one_block(offset, data@.len()),
        ensures
            final(self)@.capacity == old(self)@.capacity,
            final(self)@.cache == write_step(old(self)@.cache, offset, data@, event@).cache,
            action@ == write_step(old(self)@.cache, offset, data@, event@).action,
    {
        let (index, start) = to_block_index(offset);
        let answered = match event {
            Event::BlockWritten { index: answered, .. } => answered == index,
            _ => false,
        };
        if answered && self.cache.holds(index) {
            return self.cache.write_back(index, event);
        }
        match self.cache.ensure_loaded(index, event) {
            Action::Done(Ok(_)) => {
                self.cache.write(start, data);
                self.cache.write_back(index, Event::Start)
            },
            other => other,
        }
    }

    /// One step of erasing `[from, to)`: every block that shares a byte with
    /// the range is zeroed whole.
    pub fn erase<E>(&mut self, from: u32, to: u32, event: Event<E>) -> (action: Action<E>)
        ensures
            final(self)@.capacity == old(self)@.capacity,
            final(self)@.cache == erase_step(old(self)@.cache, from, to, event@).cache,
            action@ == erase_step(old(self)@.cache, from, to, event@).action,
    {
        if from < to {
            let first: u32 = address_to_block(from);
            let last: u32 = address_to_block(to - 1);
            match event {
                Event::BlockWritten { index: answered, outcome } => {
                    if first <= answered && answered <= last {
                        match outcome {
                            Ok(_) => {
                                if answered < last {
                                    return Action::WriteBlock {
                                        index: answered + 1,
                                        data: zeroed_block(),
                                    };
                                }
                                self.cache.invalidate();
                                return Action::Done(Ok(()));
                            },
                            Err(e) => {
                                self.cache.invalidate();
                                return Action::Done(Err(Error::from(e)));
                            },
                        }
                    }
                },
                _ => {},
            }
            Action::WriteBlock { index: first, data: zeroed_block() }
        } else {
            self.cache.invalidate();
            Action::Done(Ok(()))
        }
    }
}

} // verus!
