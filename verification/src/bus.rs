//! The bus transaction interface that the drivers require of their transport,
//! and the error type through which a transport failure is reported.
//!
//! A transport performs addressed write / read / write-then-read byte-buffer
//! transactions and provides the timed settle waits between them. When several
//! drivers share one physical bus, the object behind this interface must make
//! each single transaction atomic with respect to the other drivers'
//! transactions; the drivers assume that guarantee and never interleave two
//! transactions of their own.

use vstd::prelude::*;

verus! {

/// An addressed byte-buffer bus transport.
///
/// Each transaction either completes or reports one transport-specific error;
/// the drivers abort on the first error and pass it through unchanged. A
/// successful read fills the caller's whole buffer and leaves its length
/// unchanged.
pub trait Transport {
    type BusError;

    /// Writes `bytes` to the device at `address`.
    fn write(&mut self, address: u8, bytes: &Vec<u8>) -> Result<(), Self::BusError>;

    /// Reads exactly `buffer.len()` bytes from the device at `address`.
    fn read(&mut self, address: u8, buffer: &mut Vec<u8>) -> (r: Result<
        (),
        Self::BusError,
    >)
        ensures
            r is Ok ==> final(buffer)@.len() == old(buffer)@.len(),
    ;

    /// Writes `bytes` to the device at `address`, then, without releasing the
    /// bus in between, reads exactly `buffer.len()` bytes back.
    fn write_then_read(
        &mut self,
        address: u8,
        bytes: &Vec<u8>,
        buffer: &mut Vec<u8>,
    ) -> (r: Result<(), Self::BusError>)
        ensures
            r is Ok ==> final(buffer)@.len() == old(buffer)@.len(),
    ;

    /// Suspends the calling task for `ms` milliseconds: the settle wait a
    /// chip needs after a command before its output register is valid.
    fn delay_ms(&mut self, ms: u64);
}

/// The single error kind a driver reports: a transport failure carrying the
/// transport's own error classification, passed through unchanged.
pub enum Error<E> {
    I2c(E),
}

} // verus!
