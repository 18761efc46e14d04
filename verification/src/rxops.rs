//! Operations that a connection has pending towards the guest.

use vstd::prelude::*;

verus! {

/// An operation for which the guest is owed a packet.
#[derive(Clone, Copy, PartialEq, Eq, Structural, Debug)]
pub enum RxOps {
    /// VSOCK_OP_REQUEST
    Request,
    /// VSOCK_OP_RW
    Rw,
    /// VSOCK_OP_RESPONSE
    Response,
    /// VSOCK_OP_CREDIT_UPDATE
    CreditUpdate,
    /// VSOCK_OP_RST
    Rst,
}

impl RxOps {
    /// The operation's place in the order in which pending operations are served, and the number
    /// of its bit.
    pub open spec fn rank(self) -> nat {
        match self {
            RxOps::Request => 0,
            RxOps::Rw => 1,
            RxOps::Response => 2,
            RxOps::CreditUpdate => 3,
            RxOps::Rst => 4,
        }
    }

    /// The operation's bit.
    pub open spec fn mask(self) -> u8 {
        match self {
            RxOps::Request => 1,
            RxOps::Rw => 2,
            RxOps::Response => 4,
            RxOps::CreditUpdate => 8,
            RxOps::Rst => 16,
        }
    }

    /// Convert enum value into bitmask
    pub fn bitmask(self) -> (r: u8)
        ensures
            r == self.mask(),
            r == 1u8 << self.rank(),
    {
        assert(1u8 << 0nat == 1 && 1u8 << 1nat == 2 && 1u8 << 2nat == 4 && 1u8 << 3nat == 8 && 1u8
            << 4nat == 16) by (bit_vector);
        match self {
            RxOps::Request => 1,
            RxOps::Rw => 2,
            RxOps::Response => 4,
            RxOps::CreditUpdate => 8,
            RxOps::Rst => 16,
        }
    }
}

} // verus!
