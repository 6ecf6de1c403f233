//! The errors that driver calls report.
use vstd::prelude::*;

verus! {

/// Why a driver call failed.
#[derive(Copy, Clone, Debug, PartialEq, Eq, Structural)]
pub enum Error {
    /// There are not enough free descriptors in the virtqueue.
    QueueFull,
    /// The device or the driver is not ready for the call.
    NotReady,
    /// The device used a different descriptor chain than the one it was asked for.
    WrongToken,
    /// The queue is already in use.
    AlreadyUsed,
    /// A parameter is invalid.
    InvalidParam,
    /// DMA memory could not be allocated.
    DmaError,
    /// The device answered with something else than what was asked for.
    IoError,
    /// The device did not offer what the call needs.
    Unsupported,
    /// The configuration space of the device is too small.
    ConfigSpaceTooSmall,
    /// The device has no configuration space.
    ConfigSpaceMissing,
}

} // verus!
