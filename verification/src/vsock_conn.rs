//! One vsock connection between a host-side stream and an application in the guest.

use vstd::prelude::*;

use crate::error::Error;
use crate::packet;
use crate::packet::HdrField;
use crate::packet::PacketView;
use crate::packet::VsockPacket;
use crate::packet::VSOCK_PKT_HDR_SIZE;
use crate::proto::{
    VSOCK_FLAGS_SHUTDOWN_RCV, VSOCK_FLAGS_SHUTDOWN_SEND, VSOCK_OP_CREDIT_REQUEST,
    VSOCK_OP_CREDIT_UPDATE, VSOCK_OP_REQUEST, VSOCK_OP_RESPONSE, VSOCK_OP_RST, VSOCK_OP_RW,
    VSOCK_OP_SHUTDOWN, VSOCK_TYPE_STREAM,
};
use crate::rxops::RxOps;
use crate::rxqueue;
use crate::rxqueue::RxQueue;
use crate::txbuf;
use crate::txbuf::LocalTxBuf;
use crate::txbuf::TxOp;
use crate::txbuf::CONN_TX_BUF_SIZE;
use crate::wire;

verus! {

/// The state of a vsock connection. The host-side stream itself belongs to whoever performs the
/// reads and writes that the methods ask for.
#[derive(Debug)]
pub struct VsockConnection {
    /// Descriptor of the host-side stream corresponding to this vsock connection
    pub stream_fd: i32,
    /// Specifies if the stream is connected to a listener on the host
    pub connect: bool,
    /// Port at which a guest application is listening to
    pub peer_port: u32,
    /// Queue holding pending rx operations per connection
    pub rx_queue: RxQueue,
    /// CID of the host
    pub local_cid: u64,
    /// Port on the host at which a host-side application listens to
    pub local_port: u32,
    /// CID of the guest
    pub guest_cid: u64,
    /// Total number of bytes written to stream from tx buffer, modulo 2^32
    pub fwd_cnt: u32,
    /// Total number of bytes previously forwarded to stream, modulo 2^32
    pub last_fwd_cnt: u32,
    /// Size of buffer the guest has allocated for this connection
    pub peer_buf_alloc: u32,
    /// Number of bytes the peer has forwarded to a connection, modulo 2^32
    pub peer_fwd_cnt: u32,
    /// The total number of bytes sent to the guest vsock driver, modulo 2^32
    pub rx_cnt: u32,
    /// epoll fd to which this connection's stream has to be added
    pub epoll_fd: i32,
    /// Local tx buffer
    pub tx_buf: LocalTxBuf,
}

/// What is left to do for a packet to the guest.
#[derive(Debug, Clone, Copy, PartialEq, Eq, Structural)]
pub enum RecvStep {
    /// The packet is ready
    Done,
    /// Read at most this many bytes from the stream, and go on with [`VsockConnection::recv_read`]
    Read(usize),
    /// Register the stream for read and write events, and go on with
    /// [`VsockConnection::recv_registered`]
    Register,
}

/// What is left to do for a packet from the guest.
#[derive(Debug)]
pub enum SendStep {
    /// The packet has been consumed
    Done,
    /// Write all these bytes to the stream
    WriteAll(Vec<u8>),
    /// Write [`VsockPacket::data`] to the stream, and go on with [`VsockConnection::send_bytes`]
    WriteData,
    /// Have the stream polled for read and write events
    Rearm,
}

/// What came of a write to the stream.
#[derive(Debug, Clone, Copy, PartialEq, Eq, Structural)]
pub enum WriteOutcome {
    /// The stream took this many bytes
    Written(usize),
    /// The stream would have blocked
    WouldBlock,
    /// The write failed
    Failed,
}

impl WriteOutcome {
    /// How many bytes the stream took.
    pub open spec fn count(self) -> nat {
        match self {
            WriteOutcome::Written(n) => n as nat,
            _ => 0,
        }
    }
}

/// The decimal digits of `n`.
pub open spec fn decimal(n: nat) -> Seq<u8>
    decreases n,
{
    if n < 10 {
        seq![(48 + n) as u8]
    } else {
        decimal(n / 10).push((48 + n % 10) as u8)
    }
}

/// Appends the decimal digits of `n`.
pub(crate) fn push_decimal(out: &mut Vec<u8>, n: u32)
    ensures
        final(out)@ == old(out)@ + decimal(n as nat),
    decreases n,
{
    let ghost before = out@;
    if n >= 10 {
        push_decimal(out, n / 10);
    }
    out.push(48 + (n % 10) as u8);
    assert(out@ =~= before + decimal(n as nat));
}

/// The answer that a host-side application gets once the guest has accepted its connection.
pub open spec fn ok_response(port: u32) -> Seq<u8> {
    seq![79u8, 75, 32] + decimal(port as nat) + seq![10u8]
}

/// `OK <port>\n`
fn response_bytes(port: u32) -> (r: Vec<u8>)
    ensures
        r@ == ok_response(port),
{
    let mut bytes: Vec<u8> = Vec::new();
    // "OK "
    bytes.push(79);
    bytes.push(75);
    bytes.push(32);
    push_decimal(&mut bytes, port);
    // "\n"
    bytes.push(10);
    assert(bytes@ =~= ok_response(port));
    bytes
}

/// Sets every byte to zero.
fn zero_bytes(bytes: &mut [u8])
    ensures
        final(bytes)@ == Seq::new(old(bytes)@.len(), |i: int| 0u8),
{
    let mut i: usize = 0;
    let ghost n = bytes@.len();
    while i < bytes.len()
        invariant
            i <= bytes@.len(),
            bytes@.len() == n,
            forall|k: int| 0 <= k < i ==> #[trigger] bytes@[k] == 0,
        decreases n - i,
    {
        bytes[i] = 0;
        i = i + 1;
    }
    assert(bytes@ =~= Seq::new(n, |i: int| 0u8));
}

/// Copies `src` over the front of `dst`.
fn copy_front(dst: &mut [u8], src: &[u8])
    requires
        src@.len() <= old(dst)@.len(),
    ensures
        final(dst)@ == wire::overwrite(old(dst)@, 0, src@),
{
    let ghost before = dst@;
    let mut i: usize = 0;
    while i < src.len()
        invariant
            i <= src@.len() <= dst@.len(),
            dst@.len() == before.len(),
            forall|k: int|
                0 <= k < dst@.len() ==> #[trigger] dst@[k] == if k < i { src@[k] } else { before[k] },
        decreases src@.len() - i,
    {
        dst[i] = src[i];
        i = i + 1;
    }
    assert(dst@ =~= wire::overwrite(before, 0, src@));
}

/// Both directions are shut down by the packet's flags.
pub open spec fn closes_both_ways(p: PacketView) -> bool {
    &&& p.field(HdrField::Flags) as u32 & VSOCK_FLAGS_SHUTDOWN_RCV != 0
    &&& p.field(HdrField::Flags) as u32 & VSOCK_FLAGS_SHUTDOWN_SEND != 0
}

/// `p` with `data` at the front of its buffer, saying so.
pub open spec fn data_packet(p: PacketView, data: Seq<u8>) -> PacketView {
    PacketView { buf: Some(wire::overwrite(p.buf->0, 0, data)), ..p }.with_field(
        HdrField::Op,
        VSOCK_OP_RW as nat,
    ).with_field(HdrField::Len, data.len())
}

/// `p` saying that neither direction is used any more.
pub open spec fn shutdown_packet(p: PacketView) -> PacketView {
    p.with_field(HdrField::Op, VSOCK_OP_SHUTDOWN as nat).with_field(
        HdrField::Flags,
        (p.field(HdrField::Flags) as u32 | VSOCK_FLAGS_SHUTDOWN_RCV
            | VSOCK_FLAGS_SHUTDOWN_SEND) as nat,
    )
}

/// What becomes of a connection and of a packet to the guest when the packet is made out, and what
/// is left to do for it: the pending operation that is served next decides.
pub open spec fn received(c: VsockConnection, p: PacketView) -> (
    VsockConnection,
    PacketView,
    Result<RecvStep, Error>,
) {
    let blank = c.addressed(p);
    match rxqueue::first_op(c.rx_queue@) {
        Some(RxOps::Request) => (
            VsockConnection { rx_queue: c.rx_queue.without(RxOps::Request), ..c },
            blank.with_field(HdrField::Op, VSOCK_OP_REQUEST as nat),
            Ok(RecvStep::Done),
        ),
        Some(RxOps::Rw) => {
            let taken = VsockConnection { rx_queue: c.rx_queue.without(RxOps::Rw), ..c };
            if !c.connect {
                // There is no host-side application listening for this
                // packet, hence send back an RST.
                (taken, blank.with_field(HdrField::Op, VSOCK_OP_RST as nat), Ok(RecvStep::Done))
            } else if c.credit() == 0 {
                // The peer has no space for receiving data.
                (
                    VsockConnection { last_fwd_cnt: c.fwd_cnt, ..taken },
                    blank.with_field(HdrField::Op, VSOCK_OP_CREDIT_REQUEST as nat),
                    Ok(RecvStep::Done),
                )
            } else {
                // The read data must fit inside a packet buffer and be within peer's
                // available buffer space
                match p.buf {
                    Some(bytes) => (
                        taken,
                        blank,
                        Ok(
                            RecvStep::Read(
                                if bytes.len() < c.credit() {
                                    bytes.len() as usize
                                } else {
                                    c.credit() as usize
                                },
                            ),
                        ),
                    ),
                    None => (taken, blank, Err(Error::PktBufMissing)),
                }
            }
        },
        Some(RxOps::Response) => (
            VsockConnection {
                rx_queue: c.rx_queue.without(RxOps::Response),
                connect: true,
                ..c
            },
            blank.with_field(HdrField::Op, VSOCK_OP_RESPONSE as nat),
            Ok(RecvStep::Done),
        ),
        Some(RxOps::CreditUpdate) => {
            let taken = VsockConnection { rx_queue: c.rx_queue.without(RxOps::CreditUpdate), ..c };
            if taken.rx_queue.queue == 0 {
                (
                    VsockConnection { last_fwd_cnt: c.fwd_cnt, ..taken },
                    blank.with_field(HdrField::Op, VSOCK_OP_CREDIT_UPDATE as nat),
                    Ok(RecvStep::Done),
                )
            } else {
                (taken, blank, Ok(RecvStep::Done))
            }
        },
        Some(RxOps::Rst) => (
            VsockConnection { rx_queue: c.rx_queue.without(RxOps::Rst), ..c },
            blank,
            Err(Error::NoRequestRx),
        ),
        None => (c, blank, Err(Error::NoRequestRx)),
    }
}

/// What becomes of a connection when a packet from the guest is delivered to it, and what is left
/// to do for the packet.
pub open spec fn delivered(
    before: VsockConnection,
    p: PacketView,
    after: VsockConnection,
    step: SendStep,
) -> bool {
    let credited = before.with_peer_credit(p);
    let op = p.field(HdrField::Op);
    if op == VSOCK_OP_RESPONSE {
        // Confirmation for a host initiated connection
        &&& step matches SendStep::WriteAll(bytes) && bytes@ == ok_response(before.peer_port)
        &&& after == (VsockConnection { connect: true, ..credited })
    } else if op == VSOCK_OP_RW && p.buf is Some {
        // Data already present in the buffer goes first
        if before.tx_buf@.len() > 0 {
            &&& step is Done
            &&& after == (VsockConnection { tx_buf: after.tx_buf, ..credited })
            &&& after.tx_buf@ == txbuf::held_after(before.tx_buf@, TxOp::Push(p.filled()))
        } else {
            &&& step is WriteData
            &&& after == credited
        }
    } else if op == VSOCK_OP_CREDIT_UPDATE {
        &&& step is Rearm
        &&& after == credited
    } else if op == VSOCK_OP_CREDIT_REQUEST {
        // Send back this connection's credit information
        &&& step is Done
        &&& after == (VsockConnection {
            rx_queue: credited.rx_queue.with(RxOps::CreditUpdate),
            ..credited
        })
    } else if op == VSOCK_OP_SHUTDOWN && closes_both_ways(p) && before.tx_buf@.len() == 0 {
        &&& step is Done
        &&& after == (VsockConnection {
            rx_queue: credited.rx_queue.with(RxOps::Rst),
            ..credited
        })
    } else {
        &&& step is Done
        &&& after == credited
    }
}

/// The bytes that were read, if any were.
pub open spec fn read_bytes(data: Option<&[u8]>) -> Option<Seq<u8>> {
    match data {
        Some(read) => Some(read@),
        None => None,
    }
}

/// What becomes of a connection and of a packet to the guest when `data` has been read for the
/// packet, or the read has failed, and what is left to do for it.
pub open spec fn read_taken(
    before: VsockConnection,
    p: PacketView,
    data: Option<Seq<u8>>,
    after: VsockConnection,
    q: PacketView,
    step: RecvStep,
) -> bool {
    match data {
        None => step == RecvStep::Done && q == p && after == before,
        Some(read) => if read.len() == 0 {
            // The stream was closed down unexpectedly.
            &&& step == RecvStep::Done
            &&& q == shutdown_packet(p)
            &&& after == before.after_packet(p)
        } else {
            &&& step == RecvStep::Register
            &&& q == data_packet(p, read)
            &&& after == before
        },
    }
}

/// What becomes of a connection once it is known whether its stream could be registered again.
pub open spec fn counted(
    before: VsockConnection,
    p: PacketView,
    registered: Result<(), std::io::Error>,
    after: VsockConnection,
    r: Result<(), Error>,
) -> bool {
    match registered {
        Ok(()) => r == Ok::<(), Error>(()) && after == before.after_packet(p),
        Err(e) => r == Err::<(), Error>(Error::EpollAdd(e)) && after == before,
    }
}

/// What becomes of a connection when `buf` was to be written to its stream.
pub open spec fn forwarded(
    before: VsockConnection,
    buf: Seq<u8>,
    outcome: WriteOutcome,
    after: VsockConnection,
    r: Result<usize, Error>,
) -> bool {
    if before.tx_buf@.len() > 0 {
        &&& r == if before.tx_buf@.len() + buf.len() <= CONN_TX_BUF_SIZE {
            Ok::<usize, Error>(0)
        } else {
            Err::<usize, Error>(Error::LocalTxBufFull)
        }
        &&& after == (VsockConnection { tx_buf: after.tx_buf, ..before })
        &&& after.tx_buf@ == txbuf::held_after(before.tx_buf@, TxOp::Push(buf))
        &&& r is Err ==> after == before
    } else if outcome is Failed {
        &&& r == Err::<usize, Error>(Error::UnixWrite)
        &&& after == before
    } else {
        let rest = buf.skip(outcome.count() as int);
        &&& r == if rest.len() <= CONN_TX_BUF_SIZE {
            Ok::<usize, Error>(outcome.count() as usize)
        } else {
            Err::<usize, Error>(Error::LocalTxBufFull)
        }
        &&& after == (VsockConnection {
            fwd_cnt: ((before.fwd_cnt + outcome.count()) % 0x1_0000_0000) as u32,
            rx_queue: before.rx_queue.with(RxOps::CreditUpdate),
            tx_buf: after.tx_buf,
            ..before
        })
        &&& after.tx_buf@ == if rest.len() <= CONN_TX_BUF_SIZE {
            rest
        } else {
            Seq::<u8>::empty()
        }
    }
}

impl VsockConnection {
    /// The connection's buffer is in order.
    pub open spec fn wf(&self) -> bool {
        self.tx_buf.wf()
    }

    /// How many bytes are on their way to the peer's application.
    pub open spec fn in_flight(&self) -> nat {
        txbuf::counter_distance(self.rx_cnt, self.peer_fwd_cnt)
    }

    /// How many bytes the peer still has room for: none where more is on its way than fits, as when
    /// the peer has made its buffer smaller.
    pub open spec fn credit(&self) -> nat {
        if self.in_flight() <= self.peer_buf_alloc {
            (self.peer_buf_alloc - self.in_flight()) as nat
        } else {
            0
        }
    }

    /// `p` with its header made out for this connection, and nothing asked for yet.
    pub open spec fn addressed(&self, p: PacketView) -> PacketView {
        PacketView { hdr: Seq::new(VSOCK_PKT_HDR_SIZE as nat, |i: int| 0u8), ..p }.with_field(
            HdrField::SrcCid,
            self.local_cid as nat,
        ).with_field(HdrField::DstCid, self.guest_cid as nat).with_field(
            HdrField::SrcPort,
            self.local_port as nat,
        ).with_field(HdrField::DstPort, self.peer_port as nat).with_field(
            HdrField::Type,
            VSOCK_TYPE_STREAM as nat,
        ).with_field(HdrField::BufAlloc, CONN_TX_BUF_SIZE as nat).with_field(
            HdrField::FwdCnt,
            self.fwd_cnt as nat,
        )
    }

    /// Create a new vsock connection object for locally i.e host-side
    /// inititated connections.
    pub fn new_local_init(
        stream_fd: i32,
        local_cid: u64,
        local_port: u32,
        guest_cid: u64,
        guest_port: u32,
        epoll_fd: i32,
    ) -> (r: Self)
        ensures
            r.wf(),
            r.tx_buf@ == Seq::<u8>::empty(),
            r.rx_queue.queue == 0,
            r == (VsockConnection {
                stream_fd,
                connect: false,
                peer_port: guest_port,
                rx_queue: r.rx_queue,
                local_cid,
                local_port,
                guest_cid,
                fwd_cnt: 0,
                last_fwd_cnt: 0,
                peer_buf_alloc: 0,
                peer_fwd_cnt: 0,
                rx_cnt: 0,
                epoll_fd,
                tx_buf: r.tx_buf,
            }),
    {
        Self {
            stream_fd,
            connect: false,
            peer_port: guest_port,
            rx_queue: RxQueue::new(),
            local_cid,
            local_port,
            guest_cid,
            fwd_cnt: 0,
            last_fwd_cnt: 0,
            peer_buf_alloc: 0,
            peer_fwd_cnt: 0,
            rx_cnt: 0,
            epoll_fd,
            tx_buf: LocalTxBuf::new(),
        }
    }

    /// Create a new vsock connection object for connections initiated by
    /// an application running in the guest.
    pub fn new_peer_init(
        stream_fd: i32,
        local_cid: u64,
        local_port: u32,
        guest_cid: u64,
        guest_port: u32,
        epoll_fd: i32,
        peer_buf_alloc: u32,
    ) -> (r: Self)
        ensures
            r.wf(),
            r.tx_buf@ == Seq::<u8>::empty(),
            r.rx_queue@ == Set::<RxOps>::empty().insert(RxOps::Response),
            r.rx_queue.queue == RxOps::Response.mask(),
            r == (VsockConnection {
                stream_fd,
                connect: false,
                peer_port: guest_port,
                rx_queue: r.rx_queue,
                local_cid,
                local_port,
                guest_cid,
                fwd_cnt: 0,
                last_fwd_cnt: 0,
                peer_buf_alloc,
                peer_fwd_cnt: 0,
                rx_cnt: 0,
                epoll_fd,
                tx_buf: r.tx_buf,
            }),
    {
        let mut rx_queue = RxQueue::new();
        rx_queue.enqueue(RxOps::Response);
        assert(0u8 | 4u8 == 4u8) by (bit_vector);
        Self {
            stream_fd,
            connect: false,
            peer_port: guest_port,
            rx_queue,
            local_cid,
            local_port,
            guest_cid,
            fwd_cnt: 0,
            last_fwd_cnt: 0,
            peer_buf_alloc,
            peer_fwd_cnt: 0,
            rx_cnt: 0,
            epoll_fd,
            tx_buf: LocalTxBuf::new(),
        }
    }

    /// Set the peer port to the guest side application's port
    pub fn set_peer_port(&mut self, peer_port: u32)
        ensures
            *final(self) == (VsockConnection { peer_port, ..*old(self) }),
    {
        self.peer_port = peer_port;
    }

    /// Process a vsock packet that is meant for this connection: make it out for the guest, with
    /// the pending operation that is served next.
    pub fn recv_pkt(&mut self, pkt: &mut VsockPacket) -> (r: Result<RecvStep, Error>)
        ensures
            received(*old(self), old(pkt)@) == (*final(self), final(pkt)@, r),
    {
        // Initialize all fields in the packet header
        self.init_pkt(pkt);

        match self.rx_queue.dequeue() {
            Some(RxOps::Request) => {
                // Send a connection request to the guest-side application
                pkt.set_op(VSOCK_OP_REQUEST);
                Ok(RecvStep::Done)
            },
            Some(RxOps::Rw) => {
                if !self.connect {
                    pkt.set_op(VSOCK_OP_RST);
                    return Ok(RecvStep::Done);
                }
                // Check if peer has space for receiving data
                if self.need_credit_update_from_peer() {
                    self.last_fwd_cnt = self.fwd_cnt;
                    pkt.set_op(VSOCK_OP_CREDIT_REQUEST);
                    return Ok(RecvStep::Done);
                }
                let buf_len = match pkt.buf() {
                    Some(buf) => buf.len(),
                    None => return Err(Error::PktBufMissing),
                };
                // Perform a credit check to find the maximum read size
                let credit = self.peer_avail_credit();
                let max_read_len: usize = if buf_len < credit { buf_len } else { credit };
                Ok(RecvStep::Read(max_read_len))
            },
            Some(RxOps::Response) => {
                // A response has been received to a newly initiated host-side connection
                self.connect = true;
                pkt.set_op(VSOCK_OP_RESPONSE);
                Ok(RecvStep::Done)
            },
            Some(RxOps::CreditUpdate) => {
                // Request credit update from the guest.
                if !self.rx_queue.pending_rx() {
                    // Waste an rx buffer if no rx is pending
                    pkt.set_op(VSOCK_OP_CREDIT_UPDATE);
                    self.last_fwd_cnt = self.fwd_cnt;
                }
                Ok(RecvStep::Done)
            },
            _ => Err(Error::NoRequestRx),
        }
    }

    /// Take in what was read from the stream for a packet that [`Self::recv_pkt`] made out:
    /// `None` if the read failed.
    pub fn recv_read(&mut self, pkt: &mut VsockPacket, data: Option<&[u8]>) -> (r: RecvStep)
        requires
            data matches Some(read) ==> {
                &&& old(pkt)@.buf matches Some(bytes) && read@.len() <= bytes.len()
                &&& read@.len() <= old(self).credit()
            },
        ensures
            read_taken(*old(self), old(pkt)@, read_bytes(data), *final(self), final(pkt)@, r),
    {
        let read = match data {
            Some(read) => read,
            None => return RecvStep::Done,
        };
        proof {
            packet::lemma_header_size(pkt);
            wire::lemma_le_limits();
        }
        if read.len() == 0 {
            // If no data was read then the stream was closed down unexpectedly.
            // Send a shutdown packet to the guest-side application.
            let ghost before = pkt@;
            let ghost shut = before.with_field(HdrField::Op, VSOCK_OP_SHUTDOWN as nat);
            let ghost flags = before.field(HdrField::Flags) as u32;
            pkt.set_op(VSOCK_OP_SHUTDOWN).set_flag(VSOCK_FLAGS_SHUTDOWN_RCV).set_flag(
                VSOCK_FLAGS_SHUTDOWN_SEND,
            );
            proof {
                let one = (flags | VSOCK_FLAGS_SHUTDOWN_RCV) as nat;
                let both = (flags | VSOCK_FLAGS_SHUTDOWN_RCV | VSOCK_FLAGS_SHUTDOWN_SEND) as nat;
                packet::law_header_fields(
                    before,
                    HdrField::Op,
                    VSOCK_OP_SHUTDOWN as nat,
                    HdrField::Flags,
                );
                packet::law_header_fields(
                    before,
                    HdrField::Op,
                    VSOCK_OP_SHUTDOWN as nat,
                    HdrField::Len,
                );
                packet::law_header_fields(shut, HdrField::Flags, one, HdrField::Flags);
                packet::lemma_set_twice(shut, HdrField::Flags, one, both);
                packet::law_header_fields(shut, HdrField::Flags, both, HdrField::Len);
            }
            self.count_packet(pkt);
            RecvStep::Done
        } else {
            // If data was read, then set the length field in the packet header
            // to the amount of data that was read.
            match pkt.buf_mut() {
                Some(buf) => copy_front(buf, read),
                None => {},
            }
            pkt.set_op(VSOCK_OP_RW).set_len(read.len() as u32);
            RecvStep::Register
        }
    }

    /// Take in whether the stream could be registered again after data for `pkt` was read from it.
    /// If not, the data is not counted as sent.
    pub fn recv_registered(
        &mut self,
        pkt: &VsockPacket,
        registered: Result<(), std::io::Error>,
    ) -> (r: Result<(), Error>)
        ensures
            counted(*old(self), pkt@, registered, *final(self), r),
    {
        match registered {
            Ok(()) => {
                self.count_packet(pkt);
                Ok(())
            },
            Err(e) => Err(Error::EpollAdd(e)),
        }
    }

    /// The connection once `p` counts as sent to the guest.
    pub open spec fn after_packet(self, p: PacketView) -> VsockConnection {
        VsockConnection {
            rx_cnt: ((self.rx_cnt + p.field(HdrField::Len)) % 0x1_0000_0000) as u32,
            last_fwd_cnt: self.fwd_cnt,
            ..self
        }
    }

    /// Update the rx_cnt with the amount of data in the vsock packet.
    fn count_packet(&mut self, pkt: &VsockPacket)
        ensures
            *final(self) == old(self).after_packet(pkt@),
    {
        self.rx_cnt = self.rx_cnt.wrapping_add(pkt.len());
        self.last_fwd_cnt = self.fwd_cnt;
    }

    /// The connection with the credit information of a packet from the guest.
    pub open spec fn with_peer_credit(self, p: PacketView) -> VsockConnection {
        VsockConnection {
            peer_buf_alloc: p.field(HdrField::BufAlloc) as u32,
            peer_fwd_cnt: p.field(HdrField::FwdCnt) as u32,
            ..self
        }
    }

    /// Deliver a guest generated packet to this connection, which always consumes it
    pub fn send_pkt(&mut self, pkt: &VsockPacket) -> (r: SendStep)
        requires
            old(self).wf(),
            pkt@.field(HdrField::Op) == VSOCK_OP_RW ==> (pkt@.buf matches Some(bytes)
                ==> pkt@.field(HdrField::Len) <= bytes.len()),
        ensures
            final(self).wf(),
            delivered(*old(self), pkt@, *final(self), r),
    {
        // Update peer credit information
        self.peer_buf_alloc = pkt.buf_alloc();
        self.peer_fwd_cnt = pkt.fwd_cnt();

        let op = pkt.op();
        if op == VSOCK_OP_RESPONSE {
            let response = response_bytes(self.peer_port);
            self.connect = true;
            SendStep::WriteAll(response)
        } else if op == VSOCK_OP_RW {
            // Data has to be written to the host-side stream
            match pkt.buf() {
                Some(_) => {
                    if self.tx_buf.is_empty() {
                        return SendStep::WriteData;
                    }
                    // What the stream could not take yet goes first
                    let _ = self.send_bytes(pkt.data(), WriteOutcome::WouldBlock);
                    SendStep::Done
                },
                // An empty packet is dropped
                None => SendStep::Done,
            }
        } else if op == VSOCK_OP_CREDIT_UPDATE {
            // Already updated the credit
            SendStep::Rearm
        } else if op == VSOCK_OP_CREDIT_REQUEST {
            self.rx_queue.enqueue(RxOps::CreditUpdate);
            SendStep::Done
        } else if op == VSOCK_OP_SHUTDOWN {
            // Shutdown this connection
            let recv_off = pkt.flags() & VSOCK_FLAGS_SHUTDOWN_RCV != 0;
            let send_off = pkt.flags() & VSOCK_FLAGS_SHUTDOWN_SEND != 0;

            if recv_off && send_off && self.tx_buf.is_empty() {
                self.rx_queue.enqueue(RxOps::Rst);
            }
            SendStep::Done
        } else {
            SendStep::Done
        }
    }

    /// Write data to the host-side stream: takes in what came of writing `buf`, and keeps what the
    /// stream did not take.
    ///
    /// Where earlier data is still kept, that goes first: `buf` is not to be written, and is kept
    /// whole, whatever `outcome` says.
    ///
    /// Returns:
    /// - Ok(cnt) where cnt is the number of bytes written to the stream
    /// - Err(Error::UnixWrite) if there was an error writing to the stream
    /// - Err(Error::LocalTxBufFull) if what is to be kept does not fit
    pub fn send_bytes(&mut self, buf: &[u8], outcome: WriteOutcome) -> (r: Result<
        usize,
        Error,
    >)
        requires
            old(self).wf(),
            buf@.len() <= u32::MAX,
            old(self).tx_buf@.len() == 0 ==> outcome.count() <= buf@.len(),
        ensures
            final(self).wf(),
            forwarded(*old(self), buf@, outcome, *final(self), r),
    {
        if !self.tx_buf.is_empty() {
            // Data is already present in the buffer and the backend
            // is waiting for a EPOLLOUT event to flush it
            return match self.tx_buf.push(buf) {
                Ok(()) => Ok(0),
                Err(e) => Err(e),
            };
        }
        // Write data to the stream
        let written_count: usize = match outcome {
            WriteOutcome::Written(cnt) => cnt,
            WriteOutcome::WouldBlock => 0,
            WriteOutcome::Failed => return Err(Error::UnixWrite),
        };

        // Increment forwarded count by number of bytes written to the stream
        self.fwd_cnt = self.fwd_cnt.wrapping_add(written_count as u32);
        self.rx_queue.enqueue(RxOps::CreditUpdate);

        assert(self.tx_buf@ =~= Seq::<u8>::empty());
        if written_count != buf.len() {
            let rest = vstd::slice::slice_subrange(buf, written_count, buf.len());
            assert(rest@ =~= buf@.skip(written_count as int));
            assert(Seq::<u8>::empty() + rest@ =~= rest@);
            match self.tx_buf.push(rest) {
                Ok(()) => {},
                Err(e) => return Err(e),
            }
            return Ok(written_count);
        }
        assert(buf@.skip(written_count as int) =~= Seq::<u8>::empty());
        Ok(written_count)
    }

    /// Initialize all header fields in the vsock packet
    pub fn init_pkt<'a>(&self, pkt: &'a mut VsockPacket) -> (r: &'a mut VsockPacket)
        ensures
            r@ == self.addressed(old(pkt)@),
            *final(pkt) == *final(r),
    {
        // Zero out the packet header
        zero_bytes(pkt.hdr_mut());

        pkt.set_src_cid(self.local_cid).set_dst_cid(self.guest_cid).set_src_port(
            self.local_port,
        ).set_dst_port(self.peer_port).set_type(VSOCK_TYPE_STREAM).set_buf_alloc(
            CONN_TX_BUF_SIZE,
        ).set_fwd_cnt(self.fwd_cnt)
    }

    /// Get max number of bytes we can send to peer without overflowing
    /// the peer's buffer.
    pub fn peer_avail_credit(&self) -> (r: usize)
        ensures
            r == self.credit(),
    {
        let in_flight = self.rx_cnt.wrapping_sub(self.peer_fwd_cnt);
        if in_flight <= self.peer_buf_alloc {
            (self.peer_buf_alloc - in_flight) as usize
        } else {
            0
        }
    }

    /// Check if we need a credit update from the peer before sending
    /// more data to it.
    pub fn need_credit_update_from_peer(&self) -> (r: bool)
        ensures
            r == (self.credit() == 0),
    {
        self.peer_avail_credit() == 0
    }
}

/// Zero bytes spell zero.
proof fn lemma_zero_value(bytes: Seq<u8>)
    requires
        forall|i: int| 0 <= i < bytes.len() ==> #[trigger] bytes[i] == 0,
    ensures
        wire::le_value(bytes) == 0,
    decreases bytes.len(),
{
    if bytes.len() > 0 {
        lemma_zero_value(bytes.drop_first());
    }
}

/// What setting a field does to all fields.
pub(crate) proof fn lemma_kept(p: PacketView, f: HdrField, v: nat)
    requires
        p.hdr.len() == VSOCK_PKT_HDR_SIZE,
        v < wire::le_limit(f.width()),
    ensures
        p.with_field(f, v).hdr.len() == VSOCK_PKT_HDR_SIZE,
        forall|g: HdrField|
            #[trigger] p.with_field(f, v).field(g) == if f == g { v } else { p.field(g) },
{
    packet::law_header_fields(p, f, v, f);
    assert forall|g: HdrField|
        #[trigger] p.with_field(f, v).field(g) == if f == g { v } else { p.field(g) } by {
        packet::law_header_fields(p, f, v, g);
    }
}

/// Flow control holds: a packet with data, of at most the available credit, never brings more on its
/// way than fits the peer's buffer, and the credit shrinks by exactly the packet's data.
pub proof fn law_flow_control(c: VsockConnection, p: PacketView)
    requires
        p.field(HdrField::Len) <= c.credit(),
    ensures
        c.after_packet(p).in_flight() == c.in_flight() + p.field(HdrField::Len),
        p.field(HdrField::Len) > 0 ==> c.after_packet(p).in_flight() <= c.after_packet(
            p,
        ).peer_buf_alloc,
        c.after_packet(p).credit() == c.credit() - p.field(HdrField::Len),
{
    txbuf::lemma_counter_advances(c.rx_cnt, c.peer_fwd_cnt, p.field(HdrField::Len));
}

/// What the guest has sent and the stream has not taken is in the buffer, where `sent` counts the
/// bytes that the guest ever sent, modulo 2^32.
pub open spec fn accounted(c: VsockConnection, sent: u32) -> bool {
    txbuf::counter_distance(sent, c.fwd_cnt) == c.tx_buf@.len()
}

/// A guest that keeps to the credit it is told loses no data: where the stream takes `written` of
/// the bytes that it sends, the rest fits into the buffer, and all bytes stay accounted for.
pub proof fn law_guest_credit(
    c: VsockConnection,
    sent: u32,
    data: Seq<u8>,
    written: nat,
    after: VsockConnection,
)
    requires
        accounted(c, sent),
        txbuf::counter_distance(sent, c.fwd_cnt) + data.len() <= CONN_TX_BUF_SIZE,
        written <= data.len(),
        written > 0 ==> c.tx_buf@.len() == 0,
        after.fwd_cnt == (c.fwd_cnt + written) % 0x1_0000_0000,
        after.tx_buf@ == txbuf::held_after(c.tx_buf@, TxOp::Push(data.skip(written as int))),
    ensures
        data.take(written as int) + after.tx_buf@ == c.tx_buf@ + data,
        accounted(after, ((sent + data.len()) % 0x1_0000_0000) as u32),
{
    let sent_after = ((sent + data.len()) % 0x1_0000_0000) as u32;
    txbuf::lemma_counter_advances(sent, c.fwd_cnt, data.len());
    txbuf::lemma_counter_catches_up(sent_after, c.fwd_cnt, written);
    assert(data.take(written as int) + after.tx_buf@ =~= c.tx_buf@ + data);
}

/// What the guest gets is what was read from the stream: where a connection asks for data, and
/// some is read within the limit that it gives, the packet comes from the connection's ports, says
/// how much data it holds, and holds just the data that was read. It counts as sent with its size.
pub proof fn law_data_reaches_guest(c: VsockConnection, p: PacketView, data: Seq<u8>)
    requires
        received(c, p).2 matches Ok(RecvStep::Read(limit)) && 0 < data.len() <= limit,
    ensures
        ({
            let (taken, blank, _) = received(c, p);
            let q = data_packet(blank, data);
            &&& q.field(HdrField::Op) == VSOCK_OP_RW
            &&& q.field(HdrField::SrcCid) == c.local_cid
            &&& q.field(HdrField::DstCid) == c.guest_cid
            &&& q.field(HdrField::SrcPort) == c.local_port
            &&& q.field(HdrField::DstPort) == c.peer_port
            &&& q.field(HdrField::Len) == data.len()
            &&& q.filled() == data
            &&& taken.after_packet(q).rx_cnt == (c.rx_cnt + data.len()) % 0x1_0000_0000
        }),
{
    let blank = c.addressed(p);
    let filled = PacketView { buf: Some(wire::overwrite(blank.buf->0, 0, data)), ..blank };
    law_addressed(c, p);
    wire::lemma_le_limits();
    lemma_kept(filled, HdrField::Op, VSOCK_OP_RW as nat);
    lemma_kept(
        filled.with_field(HdrField::Op, VSOCK_OP_RW as nat),
        HdrField::Len,
        data.len(),
    );
    assert forall|g: HdrField| #[trigger] filled.field(g) == blank.field(g) by {}
    assert(data_packet(blank, data).filled() =~= data);
}

/// Flushing part of the buffer and counting it as forwarded keeps all bytes accounted for.
pub proof fn law_flush_accounted(c: VsockConnection, sent: u32, n: nat, after: VsockConnection)
    requires
        accounted(c, sent),
        n <= c.tx_buf@.len() <= CONN_TX_BUF_SIZE,
        after.fwd_cnt == (c.fwd_cnt + n) % 0x1_0000_0000,
        after.tx_buf@ == txbuf::held_after(c.tx_buf@, TxOp::Accept(n)),
    ensures
        accounted(after, sent),
{
    txbuf::lemma_counter_catches_up(sent, c.fwd_cnt, n);
}

/// A packet made out by a connection carries the connection's addresses and credit information,
/// and says nothing else.
pub proof fn law_addressed(c: VsockConnection, p: PacketView)
    ensures
        ({
            let q = c.addressed(p);
            &&& q.hdr.len() == VSOCK_PKT_HDR_SIZE
            &&& q.buf == p.buf
            &&& q.field(HdrField::SrcCid) == c.local_cid
            &&& q.field(HdrField::DstCid) == c.guest_cid
            &&& q.field(HdrField::SrcPort) == c.local_port
            &&& q.field(HdrField::DstPort) == c.peer_port
            &&& q.field(HdrField::Len) == 0
            &&& q.field(HdrField::Type) == VSOCK_TYPE_STREAM
            &&& q.field(HdrField::Op) == 0
            &&& q.field(HdrField::Flags) == 0
            &&& q.field(HdrField::BufAlloc) == CONN_TX_BUF_SIZE
            &&& q.field(HdrField::FwdCnt) == c.fwd_cnt
        }),
{
    wire::lemma_le_limits();
    let p0 = PacketView { hdr: Seq::new(VSOCK_PKT_HDR_SIZE as nat, |i: int| 0u8), ..p };
    let p1 = p0.with_field(HdrField::SrcCid, c.local_cid as nat);
    let p2 = p1.with_field(HdrField::DstCid, c.guest_cid as nat);
    let p3 = p2.with_field(HdrField::SrcPort, c.local_port as nat);
    let p4 = p3.with_field(HdrField::DstPort, c.peer_port as nat);
    let p5 = p4.with_field(HdrField::Type, VSOCK_TYPE_STREAM as nat);
    let p6 = p5.with_field(HdrField::BufAlloc, CONN_TX_BUF_SIZE as nat);
    let p7 = p6.with_field(HdrField::FwdCnt, c.fwd_cnt as nat);
    assert forall|g: HdrField| #[trigger] p0.field(g) == 0 by {
        lemma_zero_value(p0.hdr.subrange(g.offset(), g.offset() + g.width()));
    }
    lemma_kept(p0, HdrField::SrcCid, c.local_cid as nat);
    lemma_kept(p1, HdrField::DstCid, c.guest_cid as nat);
    lemma_kept(p2, HdrField::SrcPort, c.local_port as nat);
    lemma_kept(p3, HdrField::DstPort, c.peer_port as nat);
    lemma_kept(p4, HdrField::Type, VSOCK_TYPE_STREAM as nat);
    lemma_kept(p5, HdrField::BufAlloc, CONN_TX_BUF_SIZE as nat);
    lemma_kept(p6, HdrField::FwdCnt, c.fwd_cnt as nat);
}

} // verus!
