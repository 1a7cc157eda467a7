//! The TCP capability a driver offers: the socket lifecycle and the
//! non-blocking read and write protocol.
use vstd::prelude::*;

use crate::addr::HostSocketAddr;

verus! {

/// Whether a socket should block when a read or write cannot be performed,
/// or return early.
#[derive(Clone, Copy, Debug, PartialEq, Eq)]
pub enum Mode {
    /// The call waits as long as necessary to complete the operation.
    Blocking,
    /// The call does not wait at all, and only does what it can.
    NonBlocking,
    /// The call waits at most the given number of milliseconds.
    Timeout(u16),
}

/// The outcomes of a TCP operation that the caller must handle.
#[non_exhaustive]
#[derive(Clone, Copy, Debug, PartialEq, Eq)]
pub enum TcpError {
    NoAvailableSockets,
    ConnectionRefused,
    SocketNotOpen,
    WriteError,
    ReadError,
    Timeout,
    Busy,
    Impl(TcpImplError),
}

/// A driver-specific failure, carried through the shared taxonomy.
#[non_exhaustive]
#[derive(Clone, Copy, Debug, PartialEq, Eq)]
pub enum TcpImplError {
    InitializationError,
    ErrorCode(u32),
    Unknown,
}

/// The error of `nb`'s non-blocking results: `WouldBlock` ("not ready, try
/// again") beside the driver's own errors.
#[verifier::external_type_specification]
#[verifier::external_body]
#[verifier::reject_recursive_types(E)]
pub struct ExNbError<E>(nb::Error<E>);

/// Implemented by TCP/IP stacks: one may drive a WiFi co-processor through
/// AT commands, another the host's sockets. Protocol code written against
/// this trait runs on either.
pub trait TcpStack {
    /// The handle of one connection inside the driver.
    type TcpSocket;
    /// The driver's own error, convertible into the shared taxonomy.
    type Error: Into<TcpError> + core::fmt::Debug;

    /// Opens a new socket, in the unconnected state.
    fn open(&self, mode: Mode) -> Result<Self::TcpSocket, Self::Error>;

    /// Connects the socket to the given remote host and port. The handle is
    /// consumed: on failure it is gone.
    fn connect(&self, socket: Self::TcpSocket, remote: HostSocketAddr) -> Result<
        Self::TcpSocket,
        Self::Error,
    >;

    /// Whether the socket is connected; `false` is an answer, not an error.
    fn is_connected(&self, socket: &Self::TcpSocket) -> Result<bool, Self::Error>;

    /// Sends what it can of `buffer` and returns how many bytes it took,
    /// which may be fewer than `buffer` holds.
    fn write(&self, socket: &mut Self::TcpSocket, buffer: &[u8]) -> (r: nb::Result<
        usize,
        Self::Error,
    >)
        ensures
            r matches Ok(n) ==> n <= buffer@.len(),
    ;

    /// Receives into `buffer` and returns `n`: the data is in
    /// `buffer[0..n]`. A read that has nothing yet reports `WouldBlock`, so
    /// `n` is 0 only for an empty buffer.
    fn read(&self, socket: &mut Self::TcpSocket, buffer: &mut [u8]) -> (r: nb::Result<
        usize,
        Self::Error,
    >)
        ensures
            final(buffer)@.len() == old(buffer)@.len(),
            r matches Ok(n) ==> n <= old(buffer)@.len() && (n == 0 ==> old(buffer)@.len() == 0),
    ;

    /// Closes the socket; the handle is consumed whatever the outcome.
    fn close(&self, socket: Self::TcpSocket) -> Result<(), Self::Error>;
}

} // verus!
