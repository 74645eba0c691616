//! The single-block cache: at most one block's bytes, labelled with the index
//! of the block they belong to.

use crate::address::BLOCK_SIZE;
use crate::error::Error;
use crate::protocol::{Action, ActionView, Event, EventView};
use vstd::prelude::*;

verus! {

/// What the cache holds, as a mathematical value.
pub enum CacheState {
    /// No block is resident.
    Empty,
    /// The bytes `block` are resident as the contents of block `index`.
    Loaded { index: u32, block: Seq<u8> },
}

impl CacheState {
    /// Whether block `index` is the resident block.
    pub open spec fn holds(self, index: u32) -> bool {
        self matches CacheState::Loaded { index: resident, .. } && resident == index
    }

    /// A resident block has exactly `BLOCK_SIZE` bytes.
    pub open spec fn well_formed(self) -> bool {
        self matches CacheState::Loaded { block, .. } ==> block.len() == BLOCK_SIZE
    }
}

/// The block of all zero bytes.
pub open spec fn zero_block() -> Seq<u8> {
    Seq::new(BLOCK_SIZE as nat, |k: int| 0u8)
}

/// A block of all zero bytes, as `erase` writes it.
pub fn zeroed_block() -> (block: [u8; BLOCK_SIZE])
    ensures
        block@ == zero_block(),
{
    let block: [u8; BLOCK_SIZE] = [0u8; BLOCK_SIZE];
    assert(block@ =~= zero_block());
    block
}

/// `block` with `data` laid over it from position `start` on; every other
/// byte keeps its value.
pub open spec fn overlay(block: Seq<u8>, start: int, data: Seq<u8>) -> Seq<u8> {
    Seq::new(
        block.len(),
        |k: int|
            if start <= k < start + data.len() {
                data[k - start]
            } else {
                block[k]
            },
    )
}

/// The effect of one step of an operation.
pub struct Step<E> {
    /// The cache after the step.
    pub cache: CacheState,
    /// What the step asks of the driver.
    pub action: ActionView<E>,
}

/// One step of making block `index` resident. The outcome of reading block
/// `index` settles it: the bytes read become the resident block, an error
/// ends the attempt and leaves the cache as it was. Any other event is no
/// news: a resident block `index` needs no device traffic, any other state
/// of the cache asks for the block.
pub open spec fn ensure_loaded_step<E>(cache: CacheState, index: u32, event: EventView<E>) -> Step<
    E,
> {
    match event {
        EventView::BlockRead { index: answered, block: Ok(bytes) } if answered == index => Step {
            cache: CacheState::Loaded { index, block: bytes },
            action: ActionView::Done(Ok(())),
        },
        EventView::BlockRead { index: answered, block: Err(e) } if answered == index => Step {
            cache,
            action: ActionView::Done(Err(Error::Sd(e))),
        },
        _ => if cache.holds(index) {
            Step { cache, action: ActionView::Done(Ok(())) }
        } else {
            Step { cache, action: ActionView::ReadBlock { index } }
        },
    }
}

/// One step of writing the resident block back to the device as block
/// `index`. The outcome of writing block `index` settles it: success leaves
/// the cache as it is, an error empties it, since the resident block is then
/// no longer what the device holds. Any other event is no news: the block is
/// to be written.
pub open spec fn write_back_step<E>(cache: CacheState, index: u32, event: EventView<E>) -> Step<E> {
    match event {
        EventView::BlockWritten { index: answered, outcome: Ok(_) } if answered == index => Step {
            cache,
            action: ActionView::Done(Ok(())),
        },
        EventView::BlockWritten { index: answered, outcome: Err(e) } if answered == index => Step {
            cache: CacheState::Empty,
            action: ActionView::Done(Err(Error::Sd(e))),
        },
        _ => Step { cache, action: ActionView::WriteBlock { index, data: cache->block } },
    }
}

/// A buffer of one block and the index of the block it holds, if any.
pub struct BlockCache {
    cached_index: Option<u32>,
    buffer: [u8; BLOCK_SIZE],
}

impl View for BlockCache {
    type V = CacheState;

    closed spec fn view(&self) -> CacheState {
        match self.cached_index {
            Some(index) => CacheState::Loaded { index, block: self.buffer@ },
            None => CacheState::Empty,
        }
    }
}

impl BlockCache {
    /// An empty cache.
    pub fn new() -> (cache: BlockCache)
        ensures
            cache@ == CacheState::Empty,
    {
        BlockCache { cached_index: None, buffer: [0u8; BLOCK_SIZE] }
    }

    /// Every cache is well formed: a resident block has `BLOCK_SIZE` bytes.
    pub proof fn view_is_well_formed(self)
        ensures
            self@.well_formed(),
    {
    }

    /// The index of the resident block, if there is one.
    pub fn cached_index(&self) -> (index: Option<u32>)
        ensures
            match index {
                Some(i) => self@.holds(i),
                None => self@ == CacheState::Empty,
            },
    {
        self.cached_index
    }

    /// Whether block `index` is resident, so that it can be served without
    /// device traffic.
    pub fn holds(&self, index: u32) -> (hit: bool)
        ensures
            hit == self@.holds(index),
    {
        match self.cached_index {
            Some(resident) => resident == index,
            None => false,
        }
    }

    /// One step of making block `index` resident: see `ensure_loaded_step`.
    /// A hit is `Done(Ok)` at once, a miss asks for one read of the block,
    /// and the cache changes only when the block has arrived.
    pub fn ensure_loaded<E>(&mut self, index: u32, event: Event<E>) -> (action: Action<E>)
        ensures
            final(self)@ == ensure_loaded_step(old(self)@, index, event@).cache,
            action@ == ensure_loaded_step(old(self)@, index, event@).action,
    {
        match event {
            Event::BlockRead { index: answered, block } => {
                if answered == index {
                    match block {
                        Ok(bytes) => {
                            self.buffer = bytes;
                            self.cached_index = Some(index);
                            return Action::Done(Ok(()));
                        },
                        Err(e) => {
                            return Action::Done(Err(Error::from(e)));
                        },
                    }
                }
            },
            _ => {},
        }
        if self.holds(index) {
            Action::Done(Ok(()))
        } else {
            Action::ReadBlock { index }
        }
    }

    /// One step of writing the resident block back as block `index`: see
    /// `write_back_step`.
    pub fn write_back<E>(&mut self, index: u32, event: Event<E>) -> (action: Action<E>)
        requires
            old(self)@.holds(index),
        ensures
            final(self)@ == write_back_step(old(self)@, index, event@).cache,
            action@ == write_back_step(old(self)@, index, event@).action,
    {
        match event {
            Event::BlockWritten { index: answered, outcome } => {
                if answered == index {
                    match outcome {
                        Ok(_) => {
                            return Action::Done(Ok(()));
                        },
                        Err(e) => {
                            self.invalidate();
                            return Action::Done(Err(Error::from(e)));
                        },
                    }
                }
            },
            _ => {},
        }
        Action::WriteBlock { index, data: self.buffer }
    }

    /// Forgets the resident block.
    pub fn invalidate(&mut self)
        ensures
            final(self)@ == CacheState::Empty,
    {
        self.cached_index = None;
    }

    /// Copies `bytes.len()` bytes of the resident block, from position
    /// `start` on, into `bytes`.
    pub fn read(&self, start: usize, bytes: &mut [u8])
        requires
            self@ is Loaded,
            start + old(bytes)@.len() <= BLOCK_SIZE,
        ensures
            final(bytes)@ == self@->block.subrange(start as int, start + old(bytes)@.len()),
    {
        let len: usize = bytes.len();
        let mut i: usize = 0;
        while i < len
            invariant
                i <= len,
                len == bytes@.len(),
                start + len <= BLOCK_SIZE,
                forall|k: int| 0 <= k < i ==> bytes@[k] == self.buffer@[start + k],
            decreases len - i,
        {
            bytes[i] = self.buffer[start + i];
            i = i + 1;
        }
    }

    /// Lays `data` over the resident block from position `start` on. The
    /// block keeps its index, and its bytes outside the written range keep
    /// their values.
    pub fn write(&mut self, start: usize, data: &[u8])
        requires
            old(self)@ is Loaded,
            start + data@.len() <= BLOCK_SIZE,
        ensures
            final(self)@ == (CacheState::Loaded {
                index: old(self)@->index,
                block: overlay(old(self)@->block, start as int, data@),
            }),
    {
        let len: usize = data.len();
        let mut i: usize = 0;
        while i < len
            invariant
                i <= len,
                len == data@.len(),
                start + len <= BLOCK_SIZE,
                self.cached_index == old(self).cached_index,
                forall|k: int|
                    0 <= k < BLOCK_SIZE ==> self.buffer@[k] == if start <= k < start + i {
                        data@[k - start]
                    } else {
                        old(self).buffer@[k]
                    },
            decreases len - i,
        {
            self.buffer[start + i] = data[i];
            i = i + 1;
        }
        assert(self.buffer@ =~= overlay(old(self).buffer@, start as int, data@));
    }
}

} // verus!
