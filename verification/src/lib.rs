//! A byte-addressable, NOR-flash-style view of a block device with 512-byte
//! blocks, written as a protocol core without I/O: the adapter decides which
//! block transfers are needed and what they mean for its one-block cache, and
//! the caller performs them on the device.
//!
//! An operation of [`SdSpi`] is begun with [`Event::Start`]. As long as it
//! answers with a transfer, [`Action::ReadBlock`] or [`Action::WriteBlock`],
//! the caller performs the transfer and calls the operation again, with the
//! same arguments and with the event that tells how the transfer went. The
//! operation is over when it answers [`Action::Done`].
//!
//! - `address`: from byte offsets to block indices.
//! - `cache`: the cache of one block.
//! - `protocol`: actions and events.
//! - `flash`: the adapter and its operations, step by step.
//! - `error`: the adapter's error and its kind.
//! - `model`: whole operations on a modelled device, and the laws they obey.

pub mod address;
pub mod cache;
pub mod error;
pub mod flash;
pub mod model;
pub mod protocol;

pub use address::{address_to_block, fits_in_one_block, to_block_index, BLOCK_SIZE};
pub use cache::BlockCache;
pub use error::Error;
pub use flash::{DeviceGeometry, SdSpi};
pub use protocol::{Action, Event};
