//! Every way an exchange with a driver can fail.
use vstd::prelude::*;

verus! {

/// The typed outcome of a failed codec, bus or session operation.
#[derive(Debug, Clone, Copy, PartialEq, Eq, Structural)]
pub enum TMCError {
    /// The driver address is outside `0..=3`; holds the address given.
    InvalidDriverAddress(u8),
    /// A reply did not start with the sync byte; holds the byte received.
    InvalidSyncByte(u8),
    /// A reply was not addressed to the host (`0xFF`); holds the byte received.
    InvalidMasterAddress(u8),
    /// The CRC byte of a reply does not match the CRC of its other bytes.
    CrcMismatch,
    /// A reply carries another register; holds the expected and the received address.
    RegisterAddressMismatch(u8, u8),
    /// A reply is not eight bytes long; holds the length received.
    DatagramLength(usize),
    /// A register value could not be serialised into a payload.
    PackingError,
    /// A payload could not be read as a register value.
    UnpackingError,
    /// The serial line reported a transmit or receive failure.
    IoError,
    /// The reply did not arrive within the exchange timeout.
    Timeout,
    /// The interface counter did not advance over a write; holds it before and after.
    WriteVerificationFailed(u8, u8),
}

} // verus!
