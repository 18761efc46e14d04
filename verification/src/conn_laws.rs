//! What a connection promises, told from its packets, its pending operations and its buffer alone.

use vstd::prelude::*;

use crate::error::Error;
use crate::packet;
use crate::packet::HdrField;
use crate::packet::PacketView;
use crate::packet::VSOCK_PKT_HDR_SIZE;
use crate::rxops::RxOps;
use crate::rxqueue;
use crate::txbuf;
use crate::vsock_conn;
use crate::vsock_conn::RecvStep;
use crate::vsock_conn::SendStep;
use crate::vsock_conn::VsockConnection;
use crate::vsock_conn::WriteOutcome;
use crate::wire;

verus! {

/// `a` and `b` are the same connection: the same stream, ports and CIDs.
pub open spec fn same_ends(a: VsockConnection, b: VsockConnection) -> bool {
    &&& a.stream_fd == b.stream_fd
    &&& a.epoll_fd == b.epoll_fd
    &&& a.local_cid == b.local_cid
    &&& a.guest_cid == b.guest_cid
    &&& a.local_port == b.local_port
    &&& a.peer_port == b.peer_port
}

/// The packet goes from the host's end of the connection to the guest's, carries the connection's
/// credit information, and announces no data.
pub open spec fn speaks_for(q: PacketView, c: VsockConnection) -> bool {
    &&& q.hdr.len() == VSOCK_PKT_HDR_SIZE
    &&& q.field(HdrField::SrcCid) == c.local_cid
    &&& q.field(HdrField::DstCid) == c.guest_cid
    &&& q.field(HdrField::SrcPort) == c.local_port
    &&& q.field(HdrField::DstPort) == c.peer_port
    &&& q.field(HdrField::Type) == 1
    &&& q.field(HdrField::BufAlloc) == 65536
    &&& q.field(HdrField::FwdCnt) == c.fwd_cnt
    &&& q.field(HdrField::Len) == 0
    &&& q.field(HdrField::Flags) == 0
}

/// The packets lie in the same places of guest memory.
pub open spec fn same_places(q: PacketView, p: PacketView) -> bool {
    q.hdr_addr == p.hdr_addr && q.buf_addr == p.buf_addr
}

/// What setting the operation does to a packet made out by `c`.
pub(crate) proof fn lemma_op(c: VsockConnection, p: PacketView, op: u16)
    ensures
        speaks_for(c.addressed(p), c),
        c.addressed(p).field(HdrField::Op) == 0,
        c.addressed(p).buf == p.buf,
        same_places(c.addressed(p), p),
        same_places(c.addressed(p).with_field(HdrField::Op, op as nat), p),
        speaks_for(c.addressed(p).with_field(HdrField::Op, op as nat), c),
        c.addressed(p).with_field(HdrField::Op, op as nat).field(HdrField::Op) == op,
        c.addressed(p).with_field(HdrField::Op, op as nat).buf == p.buf,
{
    vsock_conn::law_addressed(c, p);
    wire::lemma_le_limits();
    vsock_conn::lemma_kept(c.addressed(p), HdrField::Op, op as nat);
}

/// What making one operation no longer pending does to all.
proof fn lemma_taken(c: VsockConnection)
    ensures
        forall|op: RxOps| (#[trigger] c.rx_queue.without(op))@ == c.rx_queue@.remove(op),
{
    assert forall|op: RxOps| (#[trigger] c.rx_queue.without(op))@ == c.rx_queue@.remove(op) by {
        rxqueue::law_queue_is_set(c.rx_queue, op);
    }
}

/// Every packet to the guest speaks for its connection and keeps the guest's buffer. Making it out
/// serves at most one pending operation and makes none pending; nothing else of the connection
/// changes but that a response connects it, and what the guest was last told.
pub proof fn law_receiving_serves_one(c: VsockConnection, p: PacketView)
    ensures
        ({
            let (after, q, r) = vsock_conn::received(c, p);
            &&& speaks_for(q, c)
            &&& q.buf == p.buf
            &&& same_places(q, p)
            &&& same_ends(after, c)
            &&& after.fwd_cnt == c.fwd_cnt
            &&& after.rx_cnt == c.rx_cnt
            &&& after.peer_buf_alloc == c.peer_buf_alloc
            &&& after.peer_fwd_cnt == c.peer_fwd_cnt
            &&& after.tx_buf == c.tx_buf
            &&& c.connect ==> after.connect
            &&& after.last_fwd_cnt == c.last_fwd_cnt || after.last_fwd_cnt == c.fwd_cnt
            &&& forall|a: RxOps| #[trigger] after.rx_queue@.contains(a) ==> c.rx_queue@.contains(a)
            &&& forall|a: RxOps, b: RxOps|
                #![trigger after.rx_queue@.contains(a), after.rx_queue@.contains(b)]
                c.rx_queue@.contains(a) && c.rx_queue@.contains(b) && a.rank() < b.rank()
                    ==> after.rx_queue@.contains(b)
        }),
{
    lemma_taken(c);
    lemma_op(c, p, 1);
    lemma_op(c, p, 2);
    lemma_op(c, p, 3);
    lemma_op(c, p, 6);
    lemma_op(c, p, 7);
}

/// A connection that is to be asked for is asked for before all else, with a request.
pub proof fn law_request_comes_first(c: VsockConnection, p: PacketView)
    requires
        c.rx_queue@.contains(RxOps::Request),
    ensures
        ({
            let (after, q, r) = vsock_conn::received(c, p);
            &&& r == Ok::<RecvStep, Error>(RecvStep::Done)
            &&& q.field(HdrField::Op) == 1
            &&& after.rx_queue@ == c.rx_queue@.remove(RxOps::Request)
            &&& after == (VsockConnection { rx_queue: after.rx_queue, ..c })
        }),
{
    lemma_taken(c);
    lemma_op(c, p, 1);
}

/// Where the host has data and the guest has room, the host's data is asked for: as much of it as
/// both the packet's buffer and the guest's room allow, so some wherever there is a buffer.
pub proof fn law_read_limit(c: VsockConnection, p: PacketView)
    requires
        c.rx_queue@.contains(RxOps::Rw),
        !c.rx_queue@.contains(RxOps::Request),
        c.connect,
        c.in_flight() < c.peer_buf_alloc,
    ensures
        ({
            let (after, q, r) = vsock_conn::received(c, p);
            let room = c.peer_buf_alloc - c.in_flight();
            &&& after.rx_queue@ == c.rx_queue@.remove(RxOps::Rw)
            &&& after == (VsockConnection { rx_queue: after.rx_queue, ..c })
            &&& q.field(HdrField::Op) == 0
            &&& match p.buf {
                Some(bytes) => {
                    &&& r matches Ok(RecvStep::Read(limit))
                    &&& limit <= bytes.len()
                    &&& limit <= room
                    &&& limit == bytes.len() || limit == room
                    &&& bytes.len() > 0 ==> limit > 0
                },
                None => r == Err::<RecvStep, Error>(Error::PktBufMissing),
            }
        }),
{
    lemma_taken(c);
    lemma_op(c, p, 0);
}

/// Where the host has data and the guest has no room, the guest is asked for more.
pub proof fn law_full_guest_is_asked_for_room(c: VsockConnection, p: PacketView)
    requires
        c.rx_queue@.contains(RxOps::Rw),
        !c.rx_queue@.contains(RxOps::Request),
        c.connect,
        c.in_flight() >= c.peer_buf_alloc,
    ensures
        ({
            let (after, q, r) = vsock_conn::received(c, p);
            &&& r == Ok::<RecvStep, Error>(RecvStep::Done)
            &&& q.field(HdrField::Op) == 7
            &&& after.rx_queue@ == c.rx_queue@.remove(RxOps::Rw)
            &&& after == (VsockConnection {
                rx_queue: after.rx_queue,
                last_fwd_cnt: c.fwd_cnt,
                ..c
            })
        }),
{
    lemma_taken(c);
    lemma_op(c, p, 7);
}

/// Data on a connection that is not established is answered with a reset.
pub proof fn law_unconnected_data_is_reset(c: VsockConnection, p: PacketView)
    requires
        c.rx_queue@.contains(RxOps::Rw),
        !c.rx_queue@.contains(RxOps::Request),
        !c.connect,
    ensures
        ({
            let (after, q, r) = vsock_conn::received(c, p);
            &&& r == Ok::<RecvStep, Error>(RecvStep::Done)
            &&& q.field(HdrField::Op) == 3
            &&& after.rx_queue@ == c.rx_queue@.remove(RxOps::Rw)
            &&& after == (VsockConnection { rx_queue: after.rx_queue, ..c })
        }),
{
    lemma_taken(c);
    lemma_op(c, p, 3);
}

/// Answering a guest that asked for the connection establishes it.
pub proof fn law_response_establishes(c: VsockConnection, p: PacketView)
    requires
        c.rx_queue@.contains(RxOps::Response),
        !c.rx_queue@.contains(RxOps::Request),
        !c.rx_queue@.contains(RxOps::Rw),
    ensures
        ({
            let (after, q, r) = vsock_conn::received(c, p);
            &&& r == Ok::<RecvStep, Error>(RecvStep::Done)
            &&& q.field(HdrField::Op) == 2
            &&& after.rx_queue@ == c.rx_queue@.remove(RxOps::Response)
            &&& after == (VsockConnection { rx_queue: after.rx_queue, connect: true, ..c })
        }),
{
    lemma_taken(c);
    lemma_op(c, p, 2);
}

/// Credit information is sent in a packet of its own only if nothing else is pending; otherwise the
/// packets to come carry it.
pub proof fn law_credit_update_is_sent_last(c: VsockConnection, p: PacketView)
    requires
        c.rx_queue@.contains(RxOps::CreditUpdate),
        !c.rx_queue@.contains(RxOps::Request),
        !c.rx_queue@.contains(RxOps::Rw),
        !c.rx_queue@.contains(RxOps::Response),
    ensures
        ({
            let (after, q, r) = vsock_conn::received(c, p);
            &&& r == Ok::<RecvStep, Error>(RecvStep::Done)
            &&& after.rx_queue@ == c.rx_queue@.remove(RxOps::CreditUpdate)
            &&& after == (VsockConnection {
                rx_queue: after.rx_queue,
                last_fwd_cnt: after.last_fwd_cnt,
                ..c
            })
            &&& if after.rx_queue.queue == 0 {
                q.field(HdrField::Op) == 6 && after.last_fwd_cnt == c.fwd_cnt
            } else {
                q.field(HdrField::Op) == 0 && after.last_fwd_cnt == c.last_fwd_cnt
            }
            &&& c.rx_queue@.contains(RxOps::Rst) ==> after.rx_queue.queue != 0
            &&& c.rx_queue.queue < 32 && !c.rx_queue@.contains(RxOps::Rst) ==> after.rx_queue.queue
                == 0
        }),
{
    lemma_taken(c);
    lemma_op(c, p, 6);
    let rest = c.rx_queue.without(RxOps::CreditUpdate);
    rxqueue::law_empty_pends_nothing(rest, RxOps::Rst);
    if c.rx_queue@.contains(RxOps::Rst) {
        assert(rest@.contains(RxOps::Rst));
    } else if c.rx_queue.queue < 32 {
        rxqueue::law_pending_means_held(c.rx_queue);
        rxqueue::law_pending_means_held(rest);
        assert(rest@ =~= Set::<RxOps>::empty());
    }
}

/// There is nothing to say exactly where no operation but a reset is pending. The reset counts as
/// served, and nothing else changes.
pub proof fn law_nothing_to_say(c: VsockConnection, p: PacketView)
    ensures
        vsock_conn::received(c, p).2 == Err::<RecvStep, Error>(Error::NoRequestRx) <==> {
            &&& !c.rx_queue@.contains(RxOps::Request)
            &&& !c.rx_queue@.contains(RxOps::Rw)
            &&& !c.rx_queue@.contains(RxOps::Response)
            &&& !c.rx_queue@.contains(RxOps::CreditUpdate)
        },
        vsock_conn::received(c, p).2 == Err::<RecvStep, Error>(Error::NoRequestRx) ==> {
            let (after, q, _) = vsock_conn::received(c, p);
            &&& q.field(HdrField::Op) == 0
            &&& after.rx_queue@ == c.rx_queue@.remove(RxOps::Rst)
            &&& after == (VsockConnection { rx_queue: after.rx_queue, ..c })
        },
{
    lemma_taken(c);
    lemma_op(c, p, 0);
    if rxqueue::first_op(c.rx_queue@) is None {
        assert(c.rx_queue@.remove(RxOps::Rst) =~= c.rx_queue@);
    }
}

/// The credit is the room that the guest has left: with what is in flight it makes up the guest's
/// buffer, and it is none where more is in flight than fits.
pub proof fn law_credit_is_room(c: VsockConnection)
    ensures
        c.in_flight() <= c.peer_buf_alloc ==> c.credit() + c.in_flight() == c.peer_buf_alloc,
        c.in_flight() > c.peer_buf_alloc ==> c.credit() == 0,
        (c.peer_fwd_cnt + c.in_flight()) % 0x1_0000_0000 == c.rx_cnt,
{
    txbuf::lemma_counter_distance(c.rx_cnt, c.peer_fwd_cnt);
}

/// What the guest forwards to its application becomes credit again.
pub proof fn law_credit_comes_back(before: VsockConnection, after: VsockConnection, n: nat)
    requires
        before.in_flight() <= before.peer_buf_alloc,
        n <= before.in_flight(),
        after.rx_cnt == before.rx_cnt,
        after.peer_buf_alloc == before.peer_buf_alloc,
        after.peer_fwd_cnt == (before.peer_fwd_cnt + n) % 0x1_0000_0000,
    ensures
        after.credit() == before.credit() + n,
{
    txbuf::lemma_counter_catches_up(before.rx_cnt, before.peer_fwd_cnt, n);
}

/// A stream that is closed shuts the connection down for the guest, in both directions.
pub proof fn law_closed_stream_shuts_down(
    before: VsockConnection,
    p: PacketView,
    after: VsockConnection,
    q: PacketView,
    step: RecvStep,
)
    requires
        p.hdr.len() == VSOCK_PKT_HDR_SIZE,
        vsock_conn::read_taken(before, p, Some(Seq::empty()), after, q, step),
    ensures
        step == RecvStep::Done,
        q.field(HdrField::Op) == 4,
        q.field(HdrField::Flags) as u32 & 1 != 0,
        q.field(HdrField::Flags) as u32 & 2 != 0,
        q.field(HdrField::SrcPort) == p.field(HdrField::SrcPort),
        q.field(HdrField::DstPort) == p.field(HdrField::DstPort),
        q.field(HdrField::Len) == p.field(HdrField::Len),
        q.buf == p.buf,
        same_places(q, p),
        p.field(HdrField::Len) == 0 ==> after.rx_cnt == before.rx_cnt,
        after.last_fwd_cnt == before.fwd_cnt,
        after == (VsockConnection {
            rx_cnt: after.rx_cnt,
            last_fwd_cnt: after.last_fwd_cnt,
            ..before
        }),
{
    wire::lemma_le_limits();
    packet::law_field_bound(p.hdr, HdrField::Flags);
    let flags = p.field(HdrField::Flags) as u32;
    let both = flags | 1u32 | 2u32;
    assert(both & 1 != 0 && both & 2 != 0) by (bit_vector)
        requires
            both == flags | 1u32 | 2u32,
    ;
    vsock_conn::lemma_kept(p, HdrField::Op, 4);
    vsock_conn::lemma_kept(p.with_field(HdrField::Op, 4), HdrField::Flags, both as nat);
}

/// Data that was read for the guest is in the packet, whole and in order, and the stream is to be
/// polled again.
pub proof fn law_read_data_is_in_the_packet(
    before: VsockConnection,
    p: PacketView,
    data: Seq<u8>,
    after: VsockConnection,
    q: PacketView,
    step: RecvStep,
)
    requires
        p.hdr.len() == VSOCK_PKT_HDR_SIZE,
        p.buf matches Some(bytes) && data.len() <= bytes.len(),
        0 < data.len() <= u32::MAX,
        vsock_conn::read_taken(before, p, Some(data), after, q, step),
    ensures
        step == RecvStep::Register,
        q.hdr.len() == VSOCK_PKT_HDR_SIZE,
        q.field(HdrField::Op) == 5,
        q.field(HdrField::Len) == data.len(),
        q.buf matches Some(bytes) && bytes.take(data.len() as int) == data && bytes.skip(
            data.len() as int,
        ) == (p.buf->0).skip(data.len() as int),
        same_places(q, p),
        q.field(HdrField::SrcPort) == p.field(HdrField::SrcPort),
        q.field(HdrField::DstPort) == p.field(HdrField::DstPort),
        after == before,
{
    wire::lemma_le_limits();
    let filled = PacketView { buf: Some(wire::overwrite(p.buf->0, 0, data)), ..p };
    vsock_conn::lemma_kept(filled, HdrField::Op, 5);
    vsock_conn::lemma_kept(filled.with_field(HdrField::Op, 5), HdrField::Len, data.len());
    assert forall|g: HdrField| #[trigger] filled.field(g) == p.field(g) by {}
    assert((q.buf->0).take(data.len() as int) =~= data);
    assert((q.buf->0).skip(data.len() as int) =~= (p.buf->0).skip(data.len() as int));
}

/// What counts as read is all that the read gave, also where that is nothing.
pub proof fn law_read_bytes(data: Option<&[u8]>)
    ensures
        data is None <==> vsock_conn::read_bytes(data) is None,
        data matches Some(read) ==> vsock_conn::read_bytes(data) == Some(read@),
{
}

/// A failed read changes nothing.
pub proof fn law_failed_read_changes_nothing(
    before: VsockConnection,
    p: PacketView,
    after: VsockConnection,
    q: PacketView,
    step: RecvStep,
)
    requires
        vsock_conn::read_taken(before, p, None, after, q, step),
    ensures
        step == RecvStep::Done,
        q == p,
        after == before,
{
}

/// A packet with data counts as sent exactly if its stream could be registered again: what is in
/// flight grows by its data, and nothing else of the connection changes but what the guest was told.
pub proof fn law_sent_data_is_counted(
    before: VsockConnection,
    p: PacketView,
    registered: Result<(), std::io::Error>,
    after: VsockConnection,
    r: Result<(), Error>,
)
    requires
        p.hdr.len() == VSOCK_PKT_HDR_SIZE,
        vsock_conn::counted(before, p, registered, after, r),
    ensures
        r is Ok <==> registered is Ok,
        registered matches Err(e) ==> r == Err::<(), Error>(Error::EpollAdd(e)),
        r is Ok ==> {
            &&& txbuf::counter_distance(after.rx_cnt, before.rx_cnt) == p.field(HdrField::Len)
            &&& before.in_flight() + p.field(HdrField::Len) <= u32::MAX ==> after.in_flight()
                == before.in_flight() + p.field(HdrField::Len)
            &&& after.last_fwd_cnt == before.fwd_cnt
        },
        r is Err ==> after == before,
        after == (VsockConnection {
            rx_cnt: after.rx_cnt,
            last_fwd_cnt: after.last_fwd_cnt,
            ..before
        }),
{
    let len = p.field(HdrField::Len);
    wire::lemma_le_limits();
    packet::law_field_bound(p.hdr, HdrField::Len);
    txbuf::lemma_counter_distance(before.rx_cnt, before.rx_cnt);
    txbuf::lemma_counter_advances(before.rx_cnt, before.rx_cnt, len);
    if before.in_flight() + len <= u32::MAX {
        txbuf::lemma_counter_advances(before.rx_cnt, before.peer_fwd_cnt, len);
    }
}

/// A packet of data takes as much of the guest's room as it holds: from the connection that makes it
/// out to the one that counts it as sent, what is in flight grows, and the credit shrinks, by what
/// was read.
pub proof fn law_data_takes_up_room(
    c: VsockConnection,
    p: PacketView,
    limit: usize,
    data: Seq<u8>,
    read: VsockConnection,
    q: PacketView,
    step: RecvStep,
    sent: VsockConnection,
    r: Result<(), Error>,
)
    requires
        c.rx_queue@.contains(RxOps::Rw),
        !c.rx_queue@.contains(RxOps::Request),
        vsock_conn::received(c, p).2 == Ok::<RecvStep, Error>(RecvStep::Read(limit)),
        0 < data.len() <= limit,
        vsock_conn::read_taken(
            vsock_conn::received(c, p).0,
            vsock_conn::received(c, p).1,
            Some(data),
            read,
            q,
            step,
        ),
        vsock_conn::counted(read, q, Ok(()), sent, r),
    ensures
        c.connect,
        step == RecvStep::Register,
        r is Ok,
        q.field(HdrField::Op) == 5,
        q.field(HdrField::Len) == data.len(),
        q.field(HdrField::SrcPort) == c.local_port,
        q.field(HdrField::DstPort) == c.peer_port,
        q.buf matches Some(bytes) && bytes.take(data.len() as int) == data,
        sent.in_flight() == c.in_flight() + data.len(),
        sent.credit() + data.len() == c.credit(),
        sent.rx_queue@ == c.rx_queue@.remove(RxOps::Rw),
{
    lemma_taken(c);
    lemma_op(c, p, 0);
    let taken = vsock_conn::received(c, p).0;
    let blank = vsock_conn::received(c, p).1;
    assert(c.connect && c.credit() > 0);
    law_read_limit(c, p);
    law_read_data_is_in_the_packet(taken, blank, data, read, q, step);
    law_sent_data_is_counted(read, q, Ok(()), sent, r);
}

/// Every packet from the guest brings its credit information, whatever it asks for. None takes a
/// pending operation away, disconnects, or changes what has been counted; whose connection it is
/// stays the same.
pub proof fn law_delivery_takes_credit_in(
    before: VsockConnection,
    p: PacketView,
    after: VsockConnection,
    step: SendStep,
)
    requires
        p.hdr.len() == VSOCK_PKT_HDR_SIZE,
        vsock_conn::delivered(before, p, after, step),
    ensures
        after.peer_buf_alloc == p.field(HdrField::BufAlloc),
        after.peer_fwd_cnt == p.field(HdrField::FwdCnt),
        same_ends(after, before),
        before.connect ==> after.connect,
        after.fwd_cnt == before.fwd_cnt,
        after.last_fwd_cnt == before.last_fwd_cnt,
        after.rx_cnt == before.rx_cnt,
        forall|op: RxOps|
            before.rx_queue@.contains(op) ==> #[trigger] after.rx_queue@.contains(op),
        after.tx_buf@.len() >= before.tx_buf@.len(),
        after.tx_buf@.take(before.tx_buf@.len() as int) == before.tx_buf@,
{
    wire::lemma_le_limits();
    packet::law_field_bound(p.hdr, HdrField::BufAlloc);
    packet::law_field_bound(p.hdr, HdrField::FwdCnt);
    rxqueue::law_queue_is_set(before.rx_queue, RxOps::CreditUpdate);
    rxqueue::law_queue_is_set(before.rx_queue, RxOps::Rst);
    assert(after.tx_buf@.take(before.tx_buf@.len() as int) =~= before.tx_buf@);
}

/// Data from the guest is written to the stream, unless earlier data still waits: then it is kept
/// behind that, if it fits. It never goes anywhere else, whatever else is pending.
pub proof fn law_guest_data_is_written_or_kept(
    before: VsockConnection,
    p: PacketView,
    bytes: Seq<u8>,
    after: VsockConnection,
    step: SendStep,
)
    requires
        p.field(HdrField::Op) == 5,
        p.buf == Some(bytes),
        p.field(HdrField::Len) <= bytes.len(),
        vsock_conn::delivered(before, p, after, step),
    ensures
        before.tx_buf@.len() == 0 ==> step is WriteData && after.tx_buf == before.tx_buf,
        before.tx_buf@.len() > 0 ==> step is Done,
        before.tx_buf@.len() > 0 && before.tx_buf@.len() + p.field(HdrField::Len) <= 65536
            ==> after.tx_buf@ == before.tx_buf@ + bytes.take(p.field(HdrField::Len) as int),
        before.tx_buf@.len() > 0 && before.tx_buf@.len() + p.field(HdrField::Len) > 65536
            ==> after.tx_buf@ == before.tx_buf@,
        after.rx_queue == before.rx_queue,
        after.connect == before.connect,
{
    packet::law_filled(p);
    if before.tx_buf@.len() > 0 {
        txbuf::law_push_all_or_none(before.tx_buf@, p.filled());
    }
}

/// A guest that uses neither direction any more is answered with a reset once nothing waits for the
/// stream, whatever else is pending; that stays pending. Any other shutdown makes nothing pending.
pub proof fn law_shutdown_is_answered(
    before: VsockConnection,
    p: PacketView,
    after: VsockConnection,
    step: SendStep,
)
    requires
        p.field(HdrField::Op) == 4,
        vsock_conn::delivered(before, p, after, step),
    ensures
        step is Done,
        after.tx_buf == before.tx_buf,
        after.connect == before.connect,
        p.field(HdrField::Flags) as u32 & 1 != 0 && p.field(HdrField::Flags) as u32 & 2 != 0
            && before.tx_buf@.len() == 0 ==> after.rx_queue@ == before.rx_queue@.insert(RxOps::Rst),
        p.field(HdrField::Flags) as u32 & 1 == 0 || p.field(HdrField::Flags) as u32 & 2 == 0
            || before.tx_buf@.len() > 0 ==> after.rx_queue@ == before.rx_queue@,
{
    rxqueue::law_queue_is_set(before.rx_queue, RxOps::Rst);
}

/// A guest that asks for credit information gets it.
pub proof fn law_credit_request_is_answered(
    before: VsockConnection,
    p: PacketView,
    after: VsockConnection,
    step: SendStep,
)
    requires
        p.field(HdrField::Op) == 7,
        vsock_conn::delivered(before, p, after, step),
    ensures
        step is Done,
        after.rx_queue@ == before.rx_queue@.insert(RxOps::CreditUpdate),
        after.tx_buf == before.tx_buf,
        after.connect == before.connect,
{
    rxqueue::law_queue_is_set(before.rx_queue, RxOps::CreditUpdate);
}

/// A guest that tells of new room has the stream polled again.
pub proof fn law_credit_update_polls_the_stream(
    before: VsockConnection,
    p: PacketView,
    after: VsockConnection,
    step: SendStep,
)
    requires
        p.field(HdrField::Op) == 6,
        vsock_conn::delivered(before, p, after, step),
    ensures
        step is Rearm,
        after.rx_queue == before.rx_queue,
        after.tx_buf == before.tx_buf,
        after.connect == before.connect,
{
}

/// A guest that accepts a connection establishes it, and the application is told.
pub proof fn law_accepted_connection_is_told(
    before: VsockConnection,
    p: PacketView,
    after: VsockConnection,
    step: SendStep,
)
    requires
        p.field(HdrField::Op) == 2,
        vsock_conn::delivered(before, p, after, step),
    ensures
        after.connect,
        step matches SendStep::WriteAll(bytes) && bytes@ == seq![79u8, 75, 32]
            + vsock_conn::decimal(before.peer_port as nat) + seq![10u8],
        after.rx_queue == before.rx_queue,
        after.tx_buf == before.tx_buf,
{
}

/// A packet that carries no data, and one that asks for nothing known, is taken and changes nothing
/// but the credit information.
pub proof fn law_other_packets_change_nothing(
    before: VsockConnection,
    p: PacketView,
    after: VsockConnection,
    step: SendStep,
)
    requires
        ({
            let op = p.field(HdrField::Op);
            ||| op == 5 && p.buf is None
            ||| op != 2 && op != 4 && op != 5 && op != 6 && op != 7
        }),
        vsock_conn::delivered(before, p, after, step),
    ensures
        step is Done,
        after.rx_queue == before.rx_queue,
        after.tx_buf == before.tx_buf,
        after.connect == before.connect,
{
}

/// Of bytes that are written to the stream, what it takes counts as forwarded, what it does not take
/// is kept, in order, and the guest is told, whatever else is pending. They fail to be kept exactly
/// where they do not fit.
pub proof fn law_written_bytes_are_forwarded_or_kept(
    before: VsockConnection,
    buf: Seq<u8>,
    outcome: WriteOutcome,
    cnt: usize,
    after: VsockConnection,
    r: Result<usize, Error>,
)
    requires
        before.tx_buf@.len() == 0,
        outcome == WriteOutcome::Written(cnt) || (outcome is WouldBlock && cnt == 0),
        cnt <= buf.len() <= u32::MAX,
        vsock_conn::forwarded(before, buf, outcome, after, r),
    ensures
        txbuf::counter_distance(after.fwd_cnt, before.fwd_cnt) == cnt,
        after.rx_queue@ == before.rx_queue@.insert(RxOps::CreditUpdate),
        after == (VsockConnection {
            fwd_cnt: after.fwd_cnt,
            rx_queue: after.rx_queue,
            tx_buf: after.tx_buf,
            ..before
        }),
        r is Ok <==> buf.len() - cnt <= 65536,
        r is Ok ==> r == Ok::<usize, Error>(cnt) && buf.take(
            cnt as int,
        ) + after.tx_buf@ == buf,
        r is Err ==> r == Err::<usize, Error>(Error::LocalTxBufFull) && after.tx_buf@.len() == 0,
{
    txbuf::lemma_counter_distance(before.fwd_cnt, before.fwd_cnt);
    txbuf::lemma_counter_advances(before.fwd_cnt, before.fwd_cnt, cnt as nat);
    rxqueue::law_queue_is_set(before.rx_queue, RxOps::CreditUpdate);
    if r is Ok {
        assert(buf.take(cnt as int) + after.tx_buf@ =~= buf);
    }
}

/// Bytes that come while earlier ones wait are kept behind those, all or none of them, and nothing
/// else of the connection changes.
pub proof fn law_later_bytes_wait_their_turn(
    before: VsockConnection,
    buf: Seq<u8>,
    outcome: WriteOutcome,
    after: VsockConnection,
    r: Result<usize, Error>,
)
    requires
        before.tx_buf@.len() > 0,
        vsock_conn::forwarded(before, buf, outcome, after, r),
    ensures
        after == (VsockConnection { tx_buf: after.tx_buf, ..before }),
        before.tx_buf@.len() + buf.len() <= 65536 ==> r == Ok::<usize, Error>(0) && after.tx_buf@
            == before.tx_buf@ + buf,
        before.tx_buf@.len() + buf.len() > 65536 ==> r == Err::<usize, Error>(Error::LocalTxBufFull)
            && after == before,
{
    txbuf::law_push_all_or_none(before.tx_buf@, buf);
}

/// A write that fails changes nothing, and is reported.
pub proof fn law_failed_write_is_reported(
    before: VsockConnection,
    buf: Seq<u8>,
    after: VsockConnection,
    r: Result<usize, Error>,
)
    requires
        before.tx_buf@.len() == 0,
        vsock_conn::forwarded(before, buf, WriteOutcome::Failed, after, r),
    ensures
        r == Err::<usize, Error>(Error::UnixWrite),
        after == before,
{
}

} // verus!
