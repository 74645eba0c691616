//! The adapter's error type and its place in the flash error taxonomy.

use embedded_storage_async::nor_flash::NorFlashErrorKind;
use vstd::prelude::*;
use vstd::std_specs::convert::FromSpecImpl;

verus! {

/// The error kinds of `embedded_storage`, a public enum without fields:
/// `NotAligned`, `OutOfBounds` and `Other`. Verus reads the variants from the
/// crate's own definition; nothing else is assumed of the type.
#[verifier::external_type_specification]
pub struct ExNorFlashErrorKind(embedded_storage_async::nor_flash::NorFlashErrorKind);

/// What can go wrong in the adapter: only the underlying device can fail, and
/// its error of type `E` is carried unchanged.
#[derive(Debug)]
pub enum Error<E> {
    /// The block device reported `E` during a transfer.
    Sd(E),
}

impl<E> Error<E> {
    /// The generic flash error kind of this error. The device's errors have
    /// no finer classification, so every one of them is `Other`.
    pub fn kind(&self) -> (kind: NorFlashErrorKind)
        ensures
            kind == NorFlashErrorKind::Other,
    {
        match self {
            Error::Sd(_) => NorFlashErrorKind::Other,
        }
    }
}

impl<E> From<E> for Error<E> {
    fn from(e: E) -> (error: Self) {
        Error::Sd(e)
    }
}

impl<E> FromSpecImpl<E> for Error<E> {
    open spec fn obeys_from_spec() -> bool {
        true
    }

    open spec fn from_spec(e: E) -> Self {
        Error::Sd(e)
    }
}

} // verus!
