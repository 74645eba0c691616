//! The adapter at work on a device: what whole operations do to the cache
//! and to the device, and the laws that follow.
//!
//! Everything here is ghost code. The device is a map from block index to
//! block contents; an honest driver performs each action the adapter asks
//! for and reports the outcome, until the adapter is done. Each transfer
//! works or fails as its `Fate` says; the laws on what is read and written
//! are about a device that never fails.

use crate::address::{block_of, offset_in_block, within_one_block, BLOCK_SIZE};
use crate::cache::{overlay, zero_block, CacheState, Step};
use crate::error::Error;
use crate::flash::{erase_step, erases, read_bytes, read_step, write_step};
use crate::protocol::{ActionView, EventView};
use vstd::prelude::*;

verus! {

/// One of the adapter's three operations, with its arguments.
pub enum Operation {
    /// Read at `offset`, as many bytes as the caller's buffer holds.
    Read { offset: u32 },
    /// Write `data` at `offset`.
    Write { offset: u32, data: Seq<u8> },
    /// Erase `[from, to)`.
    Erase { from: u32, to: u32 },
}

impl Operation {
    /// Whether the operation is a read or a write of bytes of block `index`.
    pub open spec fn accesses(self, index: u32) -> bool {
        match self {
            Operation::Read { offset } => block_of(offset) == index,
            Operation::Write { offset, .. } => block_of(offset) == index,
            Operation::Erase { .. } => false,
        }
    }

    /// The largest number of transfers that the operation can ask for.
    pub open spec fn transfers(self) -> nat {
        match self {
            Operation::Read { .. } => 1,
            Operation::Write { .. } => 2,
            Operation::Erase { from, to } => if from < to {
                (block_of((to - 1) as u32) - block_of(from) + 1) as nat
            } else {
                0
            },
        }
    }
}

/// One step of `op`, as its step function takes it.
pub open spec fn step<E>(op: Operation, cache: CacheState, event: EventView<E>) -> Step<E> {
    match op {
        Operation::Read { offset } => read_step(cache, offset, event),
        Operation::Write { offset, data } => write_step(cache, offset, data, event),
        Operation::Erase { from, to } => erase_step(cache, from, to, event),
    }
}

/// The caller's buffer after one step of `op`: only a read touches it.
pub open spec fn buffer_after<E>(
    op: Operation,
    cache: CacheState,
    bytes: Seq<u8>,
    event: EventView<E>,
) -> Seq<u8> {
    match op {
        Operation::Read { offset } => read_bytes(cache, offset, bytes, event),
        _ => bytes,
    }
}

/// The adapter's cache, the device's blocks, the caller's buffer, and what
/// has happened so far.
pub struct World<E> {
    /// What the cache holds.
    pub cache: CacheState,
    /// The contents of every block of the device.
    pub disk: Map<u32, Seq<u8>>,
    /// The caller's buffer.
    pub bytes: Seq<u8>,
    /// How many blocks have been read from the device.
    pub reads: nat,
    /// How many blocks have been written to the device.
    pub writes: nat,
    /// The operation's result, once it is over.
    pub result: Option<Result<(), Error<E>>>,
}

/// Every block of the device has `BLOCK_SIZE` bytes.
pub open spec fn disk_well_formed(disk: Map<u32, Seq<u8>>) -> bool {
    forall|index: u32| (#[trigger] disk[index]).len() == BLOCK_SIZE
}

/// The resident block, if there is one, is what the device holds at its
/// index.
pub open spec fn coherent(cache: CacheState, disk: Map<u32, Seq<u8>>) -> bool {
    cache matches CacheState::Loaded { index, block } ==> disk[index] == block
}

/// How the device takes one transfer.
pub enum Fate<E> {
    /// The transfer works.
    Works,
    /// The transfer fails with `error`. A read that fails changes nothing
    /// on the device; a write that fails leaves the bytes `leaves` in the
    /// block it was to write.
    Fails { error: E, leaves: Seq<u8> },
}

/// The device that never fails.
pub open spec fn never_fails<E>() -> spec_fn(nat) -> Fate<E> {
    |n: nat| Fate::Works
}

/// The honest driver: takes a step of `op` on `event`, performs on the
/// device the action that the step asks for, and goes on with the outcome,
/// for at most `fuel` transfers. The device takes its `n`-th transfer, counted
/// from zero over reads and writes, as `fates(n)` says.
pub open spec fn drive<E>(
    op: Operation,
    world: World<E>,
    event: EventView<E>,
    fuel: nat,
    fates: spec_fn(nat) -> Fate<E>,
) -> World<E>
    decreases fuel,
{
    let taken = step(op, world.cache, event);
    let after = World {
        cache: taken.cache,
        bytes: buffer_after(op, world.cache, world.bytes, event),
        ..world
    };
    let fate = fates(world.reads + world.writes);
    match taken.action {
        ActionView::Done(result) => World { result: Some(result), ..after },
        ActionView::ReadBlock { index } => if fuel == 0 {
            after
        } else {
            drive(
                op,
                World { reads: after.reads + 1, ..after },
                EventView::BlockRead {
                    index,
                    block: match fate {
                        Fate::Works => Ok(after.disk[index]),
                        Fate::Fails { error, .. } => Err(error),
                    },
                },
                (fuel - 1) as nat,
                fates,
            )
        },
        ActionView::WriteBlock { index, data } => if fuel == 0 {
            after
        } else {
            drive(
                op,
                World {
                    disk: after.disk.insert(
                        index,
                        match fate {
                            Fate::Works => data,
                            Fate::Fails { leaves, .. } => leaves,
                        },
                    ),
                    writes: after.writes + 1,
                    ..after
                },
                EventView::BlockWritten {
                    index,
                    outcome: match fate {
                        Fate::Works => Ok(()),
                        Fate::Fails { error, .. } => Err(error),
                    },
                },
                (fuel - 1) as nat,
                fates,
            )
        },
    }
}

/// The whole of `op`, from `Event::Start` to `Action::Done`, on the cache
/// `cache`, the device `disk` and the caller's buffer `bytes`, with the
/// transfers counted from zero and taken as `fates` says.
pub open spec fn run_with<E>(
    op: Operation,
    cache: CacheState,
    disk: Map<u32, Seq<u8>>,
    bytes: Seq<u8>,
    fates: spec_fn(nat) -> Fate<E>,
) -> World<E> {
    drive(
        op,
        World { cache, disk, bytes, reads: 0, writes: 0, result: None },
        EventView::Start,
        op.transfers(),
        fates,
    )
}

/// The whole of `op` on a device that never fails.
pub open spec fn run<E>(op: Operation, cache: CacheState, disk: Map<u32, Seq<u8>>, bytes: Seq<u8>) -> World<
    E,
> {
    run_with(op, cache, disk, bytes, never_fails())
}

/// The resident block after a read or write at `offset` has made sure that
/// the block of `offset` is resident: the one that was resident, on a hit,
/// or the device's, on a miss.
pub open spec fn block_in_reach(cache: CacheState, disk: Map<u32, Seq<u8>>, offset: u32) -> Seq<
    u8,
> {
    if cache.holds(block_of(offset)) {
        cache->block
    } else {
        disk[block_of(offset)]
    }
}

/// How many blocks a read or write at `offset` fetches: none on a hit, one
/// on a miss.
pub open spec fn fetches(cache: CacheState, offset: u32) -> nat {
    if cache.holds(block_of(offset)) {
        0
    } else {
        1
    }
}

/// A whole read: it succeeds, leaves the device as it was, makes the block
/// of `offset` resident with at most one fetch, and fills the buffer from it.
pub proof fn read_in_full<E>(cache: CacheState, disk: Map<u32, Seq<u8>>, offset: u32, bytes: Seq<u8>)
    ensures
        ({
            let end = run::<E>(Operation::Read { offset }, cache, disk, bytes);
            let block = block_in_reach(cache, disk, offset);
            &&& end.result == Some(Ok::<(), Error<E>>(()))
            &&& end.disk == disk
            &&& end.cache == (CacheState::Loaded { index: block_of(offset), block })
            &&& end.bytes == block.subrange(
                offset_in_block(offset) as int,
                (offset_in_block(offset) + bytes.len()) as int,
            )
            &&& end.reads == fetches(cache, offset)
            &&& end.writes == 0
        }),
{
    reveal_with_fuel(drive, 2);
}

/// A whole write: it succeeds, makes the block of `offset` resident with at
/// most one fetch, lays `data` over it, and stores the result on the device
/// with one write, at the index of that block and nowhere else.
pub proof fn write_in_full<E>(
    cache: CacheState,
    disk: Map<u32, Seq<u8>>,
    offset: u32,
    data: Seq<u8>,
    bytes: Seq<u8>,
)
    ensures
        ({
            let end = run::<E>(Operation::Write { offset, data }, cache, disk, bytes);
            let block = overlay(
                block_in_reach(cache, disk, offset),
                offset_in_block(offset) as int,
                data,
            );
            &&& end.result == Some(Ok::<(), Error<E>>(()))
            &&& end.disk == disk.insert(block_of(offset), block)
            &&& end.cache == (CacheState::Loaded { index: block_of(offset), block })
            &&& end.bytes == bytes
            &&& end.reads == fetches(cache, offset)
            &&& end.writes == 1
        }),
{
    reveal_with_fuel(drive, 3);
}

/// Whether the device takes every transfer from number `from` up to, not
/// including, number `to` without failing.
pub open spec fn all_work<E>(fates: spec_fn(nat) -> Fate<E>, from: nat, to: nat) -> bool {
    forall|n: nat| from <= n < to ==> #[trigger] fates(n) is Works
}

/// Whether `result` is the failure of transfer number `n`.
pub open spec fn failed_at<E>(
    fates: spec_fn(nat) -> Fate<E>,
    n: nat,
    result: Result<(), Error<E>>,
) -> bool {
    fates(n) matches Fate::Fails { error, .. } && result == Err::<(), Error<E>>(Error::Sd(error))
}

/// The rest of an erase after block `index` of its range has been zeroed:
/// the blocks of the range above `index` are zeroed in turn, until the last
/// one is done or the device fails; either way the erase ends with an empty
/// cache.
proof fn erase_from<E>(
    world: World<E>,
    from: u32,
    to: u32,
    index: u32,
    fuel: nat,
    fates: spec_fn(nat) -> Fate<E>,
)
    requires
        erases(from, to, index),
        fuel == block_of((to - 1) as u32) - index,
    ensures
        ({
            let end = drive(
                Operation::Erase { from, to },
                world,
                EventView::BlockWritten { index, outcome: Ok(()) },
                fuel,
                fates,
            );
            let before = world.reads + world.writes;
            &&& end.result is Some
            &&& end.cache == CacheState::Empty
            &&& end.bytes == world.bytes
            &&& end.reads == world.reads
            &&& world.writes <= end.writes <= world.writes + fuel
            &&& end.result == Some(Ok::<(), Error<E>>(())) <==> all_work(
                fates,
                before,
                end.reads + end.writes,
            )
            &&& end.result != Some(Ok::<(), Error<E>>(())) ==> end.writes > world.writes
                && all_work(fates, before, (end.reads + end.writes - 1) as nat) && failed_at(
                fates,
                (end.reads + end.writes - 1) as nat,
                end.result->0,
            )
            &&& all_work(fates, before, before + fuel) ==> end.writes == world.writes + fuel
                && forall|other: u32|
                #[trigger] end.disk[other] == if index < other && erases(from, to, other) {
                    zero_block()
                } else {
                    world.disk[other]
                }
        }),
    decreases fuel,
{
    if erases(from, to, (index + 1) as u32) {
        let op = Operation::Erase { from, to };
        let next = (index + 1) as u32;
        let rest = (fuel - 1) as nat;
        match fates(world.reads + world.writes) {
            Fate::Works => {
                let zeroed = World {
                    disk: world.disk.insert(next, zero_block()),
                    writes: world.writes + 1,
                    ..world
                };
                erase_from(zeroed, from, to, next, rest, fates);
            },
            Fate::Fails { error, leaves } => {
                let spoilt = World {
                    disk: world.disk.insert(next, leaves),
                    writes: world.writes + 1,
                    ..world
                };
                let failure = EventView::BlockWritten { index: next, outcome: Err(error) };
                assert(drive(op, spoilt, failure, rest, fates).result == Some(
                    Err::<(), Error<E>>(Error::Sd(error)),
                ));
            },
        }
    }
}

/// A whole erase on a device that never fails: it succeeds, reads nothing,
/// writes a block of zeros at every index of its range and nowhere else, and
/// leaves the cache empty.
pub proof fn erase_in_full<E>(
    cache: CacheState,
    disk: Map<u32, Seq<u8>>,
    from: u32,
    to: u32,
    bytes: Seq<u8>,
)
    ensures
        ({
            let end = run::<E>(Operation::Erase { from, to }, cache, disk, bytes);
            &&& end.result == Some(Ok::<(), Error<E>>(()))
            &&& end.cache == CacheState::Empty
            &&& end.bytes == bytes
            &&& end.reads == 0
            &&& end.writes == (Operation::Erase { from, to }).transfers()
            &&& forall|index: u32|
                #[trigger] end.disk[index] == if erases(from, to, index) {
                    zero_block()
                } else {
                    disk[index]
                }
        }),
{
    if from < to {
        let first = block_of(from);
        let zeroed = World::<E> {
            cache,
            disk: disk.insert(first, zero_block()),
            bytes,
            reads: 0,
            writes: 1,
            result: None,
        };
        let rest = ((Operation::Erase { from, to }).transfers() - 1) as nat;
        erase_from(zeroed, from, to, first, rest, never_fails::<E>());
    }
}

/// Whatever the device does, every operation comes to its end within the
/// transfers it is allowed. It succeeds if and only if every transfer it
/// made worked; otherwise its result is the error of the transfer that
/// failed, which was the last it made. And the cache invariant holds on: if
/// the resident block was what the device held before the operation, it is
/// so after it, also when a write has failed and left anything at all in a
/// block.
pub proof fn cache_stays_coherent_whatever_the_device_does<E>(
    op: Operation,
    cache: CacheState,
    disk: Map<u32, Seq<u8>>,
    bytes: Seq<u8>,
    fates: spec_fn(nat) -> Fate<E>,
)
    requires
        coherent(cache, disk),
    ensures
        ({
            let end = run_with(op, cache, disk, bytes, fates);
            let transfers = end.reads + end.writes;
            &&& end.result is Some
            &&& transfers <= op.transfers()
            &&& end.result == Some(Ok::<(), Error<E>>(())) <==> all_work(fates, 0, transfers)
            &&& end.result != Some(Ok::<(), Error<E>>(())) ==> transfers > 0 && all_work(
                fates,
                0,
                (transfers - 1) as nat,
            ) && failed_at(fates, (transfers - 1) as nat, end.result->0)
            &&& coherent(end.cache, end.disk)
        }),
{
    match op {
        Operation::Read { .. } => {
            reveal_with_fuel(drive, 2);
        },
        Operation::Write { .. } => {
            reveal_with_fuel(drive, 3);
        },
        Operation::Erase { from, to } => {
            if from < to && fates(0) is Works {
                let first = block_of(from);
                let zeroed = World::<E> {
                    cache,
                    disk: disk.insert(first, zero_block()),
                    bytes,
                    reads: 0,
                    writes: 1,
                    result: None,
                };
                erase_from(zeroed, from, to, first, (op.transfers() - 1) as nat, fates);
            }
        },
    }
}

/// Every operation on a device that never fails comes to its end within
/// the transfers it is allowed, and succeeds.
pub proof fn every_operation_succeeds<E>(
    op: Operation,
    cache: CacheState,
    disk: Map<u32, Seq<u8>>,
    bytes: Seq<u8>,
)
    ensures
        run::<E>(op, cache, disk, bytes).result == Some(Ok::<(), Error<E>>(())),
        run::<E>(op, cache, disk, bytes).reads + run::<E>(op, cache, disk, bytes).writes
            <= op.transfers(),
{
    match op {
        Operation::Read { offset } => read_in_full::<E>(cache, disk, offset, bytes),
        Operation::Write { offset, data } => write_in_full::<E>(cache, disk, offset, data, bytes),
        Operation::Erase { from, to } => erase_in_full::<E>(cache, disk, from, to, bytes),
    }
}

/// Blocks keep their size: on a device that never fails, an operation
/// leaves `BLOCK_SIZE` bytes in every block of the device and in the cache,
/// if it found them so.
pub proof fn operations_keep_blocks_whole<E>(
    op: Operation,
    cache: CacheState,
    disk: Map<u32, Seq<u8>>,
    bytes: Seq<u8>,
)
    requires
        cache.well_formed(),
        disk_well_formed(disk),
    ensures
        run::<E>(op, cache, disk, bytes).cache.well_formed(),
        disk_well_formed(run::<E>(op, cache, disk, bytes).disk),
{
    let end = run::<E>(op, cache, disk, bytes);
    match op {
        Operation::Read { offset } => read_in_full::<E>(cache, disk, offset, bytes),
        Operation::Write { offset, data } => {
            write_in_full::<E>(cache, disk, offset, data, bytes);
            assert forall|index: u32| (#[trigger] end.disk[index]).len() == BLOCK_SIZE by {
                assert(disk[index].len() == BLOCK_SIZE);
            }
        },
        Operation::Erase { from, to } => {
            erase_in_full::<E>(cache, disk, from, to, bytes);
            assert forall|index: u32| (#[trigger] end.disk[index]).len() == BLOCK_SIZE by {
                assert(disk[index].len() == BLOCK_SIZE);
            }
        },
    }
}

/// Round trip: bytes written inside one block and read back from the same
/// offset come back as they were written, whatever the cache and the device
/// held before.
pub proof fn write_then_read_returns_the_data<E>(
    cache: CacheState,
    disk: Map<u32, Seq<u8>>,
    offset: u32,
    data: Seq<u8>,
    scratch: Seq<u8>,
    buffer: Seq<u8>,
)
    requires
        cache.well_formed(),
        disk_well_formed(disk),
        within_one_block(offset, data.len()),
        buffer.len() == data.len(),
    ensures
        ({
            let written = run::<E>(Operation::Write { offset, data }, cache, disk, scratch);
            let read = run::<E>(Operation::Read { offset }, written.cache, written.disk, buffer);
            &&& written.result == Some(Ok::<(), Error<E>>(()))
            &&& read.result == Some(Ok::<(), Error<E>>(()))
            &&& read.bytes == data
        }),
{
    let written = run::<E>(Operation::Write { offset, data }, cache, disk, scratch);
    let read = run::<E>(Operation::Read { offset }, written.cache, written.disk, buffer);
    write_in_full::<E>(cache, disk, offset, data, scratch);
    read_in_full::<E>(written.cache, written.disk, offset, buffer);
    assert(disk[block_of(offset)].len() == BLOCK_SIZE);
    assert(read.bytes =~= data);
}

/// Read-modify-write isolation: a write inside one block changes, on the
/// device, the bytes of its range to `data` and nothing else: not the other
/// bytes of the block, not any other block.
pub proof fn write_changes_only_its_range<E>(
    cache: CacheState,
    disk: Map<u32, Seq<u8>>,
    offset: u32,
    data: Seq<u8>,
    scratch: Seq<u8>,
)
    requires
        cache.well_formed(),
        disk_well_formed(disk),
        coherent(cache, disk),
        within_one_block(offset, data.len()),
    ensures
        ({
            let written = run::<E>(Operation::Write { offset, data }, cache, disk, scratch);
            let start = offset_in_block(offset) as int;
            &&& written.disk[block_of(offset)].len() == BLOCK_SIZE
            &&& forall|k: int|
                0 <= k < BLOCK_SIZE ==> #[trigger] written.disk[block_of(offset)][k] == if start
                    <= k < start + data.len() {
                    data[k - start]
                } else {
                    disk[block_of(offset)][k]
                }
            &&& forall|index: u32|
                index != block_of(offset) ==> #[trigger] written.disk[index] == disk[index]
        }),
{
    write_in_full::<E>(cache, disk, offset, data, scratch);
    assert(disk[block_of(offset)].len() == BLOCK_SIZE);
}

/// A cache hit avoids device traffic: of two operations in a row that read
/// or write bytes of one block, the second fetches nothing, and the first
/// fetches the block once unless it was resident already.
pub proof fn second_access_to_a_block_fetches_nothing<E>(
    first: Operation,
    second: Operation,
    index: u32,
    cache: CacheState,
    disk: Map<u32, Seq<u8>>,
    bytes: Seq<u8>,
    more: Seq<u8>,
)
    requires
        first.accesses(index),
        second.accesses(index),
    ensures
        ({
            let one = run::<E>(first, cache, disk, bytes);
            let two = run::<E>(second, one.cache, one.disk, more);
            &&& one.reads == if cache.holds(index) { 0nat } else { 1nat }
            &&& one.cache.holds(index)
            &&& two.reads == 0
            &&& two.cache.holds(index)
        }),
{
    let one = run::<E>(first, cache, disk, bytes);
    match first {
        Operation::Read { offset } => read_in_full::<E>(cache, disk, offset, bytes),
        Operation::Write { offset, data } => write_in_full::<E>(cache, disk, offset, data, bytes),
        Operation::Erase { .. } => {},
    }
    match second {
        Operation::Read { offset } => read_in_full::<E>(one.cache, one.disk, offset, more),
        Operation::Write { offset, data } => write_in_full::<E>(
            one.cache,
            one.disk,
            offset,
            data,
            more,
        ),
        Operation::Erase { .. } => {},
    }
}

/// A cache miss on a change of block: a read or write of bytes of a block
/// that is not resident begins by asking for that block, and fetches it
/// exactly once; what was resident before is replaced, not merged.
pub proof fn access_to_another_block_fetches_it_once<E>(
    op: Operation,
    index: u32,
    cache: CacheState,
    disk: Map<u32, Seq<u8>>,
    bytes: Seq<u8>,
)
    requires
        op.accesses(index),
        !cache.holds(index),
    ensures
        step::<E>(op, cache, EventView::Start) == (Step::<E> {
            cache,
            action: ActionView::ReadBlock { index },
        }),
        run::<E>(op, cache, disk, bytes).reads == 1,
        run::<E>(op, cache, disk, bytes).cache.holds(index),
        op is Read ==> run::<E>(op, cache, disk, bytes).cache->block == disk[index],
{
    match op {
        Operation::Read { offset } => read_in_full::<E>(cache, disk, offset, bytes),
        Operation::Write { offset, data } => write_in_full::<E>(cache, disk, offset, data, bytes),
        Operation::Erase { .. } => {},
    }
}

/// Erase zero-fills: after an erase, a read anywhere in a block of the
/// erased range has to fetch the block, whatever was resident before the
/// erase, and returns zero bytes only.
pub proof fn erased_block_reads_as_zero<E>(
    cache: CacheState,
    disk: Map<u32, Seq<u8>>,
    from: u32,
    to: u32,
    offset: u32,
    scratch: Seq<u8>,
    buffer: Seq<u8>,
)
    requires
        erases(from, to, block_of(offset)),
        within_one_block(offset, buffer.len()),
    ensures
        ({
            let erased = run::<E>(Operation::Erase { from, to }, cache, disk, scratch);
            let read = run::<E>(Operation::Read { offset }, erased.cache, erased.disk, buffer);
            &&& erased.result == Some(Ok::<(), Error<E>>(()))
            &&& erased.cache == CacheState::Empty
            &&& erased.disk[block_of(offset)] == zero_block()
            &&& read.result == Some(Ok::<(), Error<E>>(()))
            &&& read.reads == 1
            &&& read.bytes == Seq::new(buffer.len(), |k: int| 0u8)
        }),
{
    let erased = run::<E>(Operation::Erase { from, to }, cache, disk, scratch);
    let read = run::<E>(Operation::Read { offset }, erased.cache, erased.disk, buffer);
    erase_in_full::<E>(cache, disk, from, to, scratch);
    read_in_full::<E>(erased.cache, erased.disk, offset, buffer);
    assert(erased.disk[block_of(offset)] == zero_block());
    assert(read.bytes =~= Seq::new(buffer.len(), |k: int| 0u8));
}

} // verus!
