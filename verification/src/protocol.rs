//! The vocabulary between the adapter and whoever drives the device: the
//! adapter hands out an `Action`, the driver performs it and hands back the
//! `Event` that tells how it went.

use crate::address::BLOCK_SIZE;
use crate::error::Error;
use vstd::prelude::*;

verus! {

/// What the driver reports to the adapter.
#[derive(Debug)]
pub enum Event<E> {
    /// Nothing yet: the operation begins.
    Start,
    /// The device was asked for block `index` and answered with its bytes or
    /// with an error.
    BlockRead { index: u32, block: Result<[u8; BLOCK_SIZE], E> },
    /// The device was asked to store a block at `index` and did so or
    /// answered with an error.
    BlockWritten { index: u32, outcome: Result<(), E> },
}

/// An `Event` as a mathematical value: blocks are byte sequences.
pub enum EventView<E> {
    Start,
    BlockRead { index: u32, block: Result<Seq<u8>, E> },
    BlockWritten { index: u32, outcome: Result<(), E> },
}

impl<E> View for Event<E> {
    type V = EventView<E>;

    open spec fn view(&self) -> EventView<E> {
        match *self {
            Event::Start => EventView::Start,
            Event::BlockRead { index, block } => EventView::BlockRead {
                index,
                block: match block {
                    Ok(bytes) => Ok(bytes@),
                    Err(e) => Err(e),
                },
            },
            Event::BlockWritten { index, outcome } => EventView::BlockWritten { index, outcome },
        }
    }
}

/// What the adapter asks of the driver.
#[derive(Debug)]
pub enum Action<E> {
    /// Read block `index` from the device and report `Event::BlockRead`.
    ReadBlock { index: u32 },
    /// Write `data` to the device as block `index` and report
    /// `Event::BlockWritten`.
    WriteBlock { index: u32, data: [u8; BLOCK_SIZE] },
    /// The operation has ended with this result; nothing is left to do.
    Done(Result<(), Error<E>>),
}

/// An `Action` as a mathematical value: blocks are byte sequences.
pub enum ActionView<E> {
    ReadBlock { index: u32 },
    WriteBlock { index: u32, data: Seq<u8> },
    Done(Result<(), Error<E>>),
}

impl<E> View for Action<E> {
    type V = ActionView<E>;

    open spec fn view(&self) -> ActionView<E> {
        match *self {
            Action::ReadBlock { index } => ActionView::ReadBlock { index },
            Action::WriteBlock { index, data } => ActionView::WriteBlock { index, data: data@ },
            Action::Done(result) => ActionView::Done(result),
        }
    }
}

} // verus!
