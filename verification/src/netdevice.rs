//! What a network device driver offers the stack: its MAC address, packet
//! buffers, and errors.
use vstd::prelude::*;

verus! {

/// The MAC address of a device.
#[derive(Debug, Clone, Copy)]
pub struct DeviceMacAddress(pub [u8; 6]);

/// A packet buffer of a device.
pub trait NetdeviceBuffer {
    /// The packet, to read.
    fn package(&self) -> &[u8];

    /// The packet, to write.
    fn package_mut(&mut self) -> &mut [u8];

    /// The length of the packet.
    fn package_len(&self) -> usize;
}

/// Errors of a device.
#[derive(Debug, Clone, Copy, PartialEq, Eq, Structural)]
pub enum DevError {
    /// An entity already exists.
    AlreadyExists,
    /// Try again, for non-blocking APIs.
    Again,
    /// Bad internal state.
    BadState,
    /// Invalid parameter/argument.
    InvalidParam,
    /// Input/output error.
    Io,
    /// Not enough space/cannot allocate memory (DMA).
    NoMemory,
    /// Device or resource is busy.
    ResourceBusy,
    /// This operation is unsupported or unimplemented.
    Unsupported,
}

/// The result of a device operation.
pub type DevResult<T = ()> = Result<T, DevError>;

} // verus!
