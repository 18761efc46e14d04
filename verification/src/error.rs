//! Errors of the vsock backend, and the standard error types that they carry.

use vstd::prelude::*;

verus! {

/// Declares `std::io::Error`, carried by the errors of socket and epoll operations.
#[verifier::external_type_specification]
#[verifier::external_body]
pub struct ExIoError(std::io::Error);

/// Declares `std::str::Utf8Error`, carried by [`Error::ConvertFromUtf8`].
#[verifier::external_type_specification]
#[verifier::external_body]
pub struct ExUtf8Error(std::str::Utf8Error);

/// Declares `std::num::ParseIntError`, carried by [`Error::ParseInteger`].
#[verifier::external_type_specification]
#[verifier::external_body]
pub struct ExParseIntError(std::num::ParseIntError);

/// Everything that can go wrong in the backend.
#[derive(Debug)]
pub enum Error {
    /// Failed to handle event other than EPOLLIN event
    HandleEventNotEpollIn,
    /// Failed to handle unknown event
    HandleUnknownEvent,
    /// Failed to accept new local socket connection
    UnixAccept(std::io::Error),
    /// Failed to create an epoll fd
    EpollFdCreate(std::io::Error),
    /// Failed to add to epoll
    EpollAdd(std::io::Error),
    /// Failed to modify evset associated with epoll
    EpollModify(std::io::Error),
    /// Failed to read from unix stream
    UnixRead(std::io::Error),
    /// Failed to convert byte array to string
    ConvertFromUtf8(std::str::Utf8Error),
    /// Invalid vsock connection request from host
    InvalidPortRequest,
    /// Unable to convert string to integer
    ParseInteger(std::num::ParseIntError),
    /// Error reading stream port
    ReadStreamPort(Box<Error>),
    /// Failed to de-register fd from epoll
    EpollRemove(std::io::Error),
    /// No memory configured
    NoMemoryConfigured,
    /// Unable to iterate queue
    IterateQueue,
    /// Missing descriptor in queue
    QueueMissingDescriptor,
    /// Unable to write to the descriptor
    UnwritableDescriptor,
    /// Small header descriptor
    HdrDescTooSmall(u32),
    /// Chained guest memory error
    GuestMemoryError,
    /// No rx request available
    NoRequestRx,
    /// Unable to create thread pool
    CreateThreadPool(std::io::Error),
    /// Unable to read from descriptor
    UnreadableDescriptor,
    /// Data buffer size less than size in packet header
    DataDescTooSmall,
    /// Packet missing data buffer
    PktBufMissing,
    /// Failed to connect to unix socket
    UnixConnect(std::io::Error),
    /// Unable to write to unix stream
    UnixWrite,
    /// Unable to push data to local tx buffer
    LocalTxBufFull,
    /// Unable to flush data from local tx buffer
    LocalTxBufFlush(std::io::Error),
}

} // verus!
