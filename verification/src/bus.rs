use vstd::prelude::*;

verus! {

/// The capability set this core consumes from a two-wire bus transport:
/// synchronous write, read, and combined write-then-read operations
/// addressed by a 7-bit device address. The transport is supplied by the
/// caller and blocks until the bus transaction completes or fails.
///
/// The model `transaction_outcome` describes a transport whose
/// write-then-read transactions are pure queries of the device: issuing
/// one does not disturb what later transactions return. This holds of
/// the single-register reads this core performs (identity and plain
/// register reads); registers with read side effects, such as a FIFO
/// data port, belong to higher layers with write access.
pub trait I2cBus: Sized {
    /// The transport's native error value for a failed bus transaction.
    type BusError;

    /// Model of the bus: the outcome of a combined single-register
    /// write-then-read transaction addressed to `address` with request
    /// byte `request` — the one response byte, or the transport's error.
    spec fn transaction_outcome(&self, address: u8, request: u8) -> Result<u8, Self::BusError>;

    /// Write `bytes` to the device at `address`. A write may change the
    /// device's state, so nothing is promised of later transactions.
    fn write(&mut self, address: u8, bytes: &[u8]) -> Result<(), Self::BusError>;

    /// Read bytes from the device at `address` into `buffer`. What a bare
    /// read returns depends on the device's current register pointer, so
    /// nothing is promised of its contents.
    fn read(&mut self, address: u8, buffer: &mut Vec<u8>) -> Result<(), Self::BusError>;

    /// Combined transaction: write the one-byte request `request` to the
    /// device at `address`, then read exactly one response byte, without
    /// releasing the bus in between.
    fn write_then_read(&mut self, address: u8, request: u8) -> (r: Result<u8, Self::BusError>)
        ensures
            r == old(self).transaction_outcome(address, request),
            forall|a: u8, q: u8| #[trigger] final(self).transaction_outcome(a, q)
                == old(self).transaction_outcome(a, q),
    ;
}

/// An interrupt input pin capability. The device handle holds such pins
/// for later interrupt support; this core never reads them.
pub trait InputPin {
    /// The pin's native error value for a failed read of its level.
    type PinError;

    /// Whether the pin reads high.
    fn is_high(&self) -> Result<bool, Self::PinError>;

    /// Whether the pin reads low.
    fn is_low(&self) -> Result<bool, Self::PinError>;
}

} // verus!
