//! What stream and datagram sockets offer on top of the messages.

use crate::encode::MAX_SEND_FDS;
use crate::error::{Error, InvalidInput};
use crate::platform::Platform;
use crate::send::SendRequest;
use vstd::prelude::*;

verus! {

/// A connected stream socket over which file descriptors can be sent.
///
/// The socket type performs the system calls; the trait prepares what
/// [`UnixStreamExt::send_fds`] hands to them.
pub trait UnixStreamExt: Sized {
    /// An address in the namespace of Unix-domain sockets.
    type Address;

    /// The address that the socket is bound to, or the error number of the
    /// failed call.
    fn local_unix_addr(&self) -> Result<Self::Address, i32>;

    /// The address that the socket is connected to, or the error number of
    /// the failed call.
    fn peer_unix_addr(&self) -> Result<Self::Address, i32>;

    /// A new socket connected to `addr`, or the error number of the failed
    /// call.
    fn connect_to_unix_addr(addr: &Self::Address) -> Result<Self, i32>;

    /// A new socket bound to `from` and connected to `to`, or the error
    /// number of the failed call.
    fn connect_from_to(from: &Self::Address, to: &Self::Address) -> Result<Self, i32>;

    /// Sends `bytes` as the only slice of a message prepared as `request`
    /// to the peer. Gives the number of bytes sent, or the error number of
    /// the failed call.
    fn send_prepared(&self, request: &SendRequest, bytes: &[u8]) -> Result<usize, i32>;

    /// Sends `bytes` and the file descriptors `fds` to the peer, without
    /// further flags and without credentials.
    ///
    /// More than [`MAX_SEND_FDS`] descriptors are refused before the socket
    /// is asked; nothing else is. What the socket then answers is what comes
    /// back, as [`Error::of_call`] gives it.
    fn send_fds(&self, bytes: &[u8], fds: &[i32]) -> (sent: Result<usize, Error>)
        ensures
            fds.len() > MAX_SEND_FDS ==> sent == Err::<usize, Error>(
                Error::InvalidInput(InvalidInput::TooManyFds),
            ),
            fds.len() <= MAX_SEND_FDS ==> !(sent matches Err(Error::InvalidInput(_))),
    {
        let platform: Platform = Platform::linux();
        match SendRequest::new(&platform, 0, 1, fds, None) {
            Ok(request) => Error::of_call(self.send_prepared(&request, bytes)),
            Err(refusal) => Err(Error::InvalidInput(refusal)),
        }
    }
}

/// A datagram socket over which file descriptors can be sent.
///
/// The socket type performs the system calls; the trait prepares what
/// [`UnixDatagramExt::send_fds_to`] hands to them.
pub trait UnixDatagramExt: Sized {
    /// An address in the namespace of Unix-domain sockets.
    type Address;

    /// The address that the socket is bound to, or the error number of the
    /// failed call.
    fn local_unix_addr(&self) -> Result<Self::Address, i32>;

    /// The address that the socket is connected to, or the error number of
    /// the failed call.
    fn peer_unix_addr(&self) -> Result<Self::Address, i32>;

    /// Connects the socket to `addr`, or gives the error number of the
    /// failed call.
    fn connect_to_unix_addr(&self, addr: &Self::Address) -> Result<(), i32>;

    /// Binds the socket to `addr`, or gives the error number of the failed
    /// call.
    fn bind_to_unix_addr(&self, addr: &Self::Address) -> Result<(), i32>;

    /// Sends `datagram` as the only slice of a message prepared as
    /// `request` to `addr`. Gives the number of bytes sent, or the error
    /// number of the failed call.
    fn send_prepared_to(
        &self,
        request: &SendRequest,
        datagram: &[u8],
        addr: &Self::Address,
    ) -> Result<usize, i32>;

    /// Sends `datagram` and the file descriptors `fds` to `addr`, without
    /// further flags and without credentials.
    ///
    /// More than [`MAX_SEND_FDS`] descriptors are refused before the socket
    /// is asked; nothing else is. What the socket then answers is what comes
    /// back, as [`Error::of_call`] gives it.
    fn send_fds_to(&self, datagram: &[u8], fds: &[i32], addr: &Self::Address) -> (sent: Result<
        usize,
        Error,
    >)
        ensures
            fds.len() > MAX_SEND_FDS ==> sent == Err::<usize, Error>(
                Error::InvalidInput(InvalidInput::TooManyFds),
            ),
            fds.len() <= MAX_SEND_FDS ==> !(sent matches Err(Error::InvalidInput(_))),
    {
        let platform: Platform = Platform::linux();
        match SendRequest::new(&platform, 0, 1, fds, None) {
            Ok(request) => Error::of_call(self.send_prepared_to(&request, datagram, addr)),
            Err(refusal) => Err(Error::InvalidInput(refusal)),
        }
    }
}

} // verus!
