//! Numbers of the vsock protocol.

use vstd::prelude::*;

verus! {

/// CID of the host
pub const VSOCK_HOST_CID: u64 = 2;

/// Connection oriented packet
pub const VSOCK_TYPE_STREAM: u16 = 1;

/// Connection request
pub const VSOCK_OP_REQUEST: u16 = 1;

/// Connection response
pub const VSOCK_OP_RESPONSE: u16 = 2;

/// Connection reset
pub const VSOCK_OP_RST: u16 = 3;

/// Shutdown connection
pub const VSOCK_OP_SHUTDOWN: u16 = 4;

/// Data read/write
pub const VSOCK_OP_RW: u16 = 5;

/// Flow control credit update
pub const VSOCK_OP_CREDIT_UPDATE: u16 = 6;

/// Flow control credit request
pub const VSOCK_OP_CREDIT_REQUEST: u16 = 7;

/// VSOCK_OP_SHUTDOWN: Packet sender will receive no more data
pub const VSOCK_FLAGS_SHUTDOWN_RCV: u32 = 1;

/// VSOCK_OP_SHUTDOWN: Packet sender will send no more data
pub const VSOCK_FLAGS_SHUTDOWN_SEND: u32 = 2;

} // verus!
