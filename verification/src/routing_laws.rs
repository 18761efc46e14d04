//! What the routing of packets promises, told from the packets' headers and the connections' ports
//! alone.

use vstd::prelude::*;

use crate::config;
use crate::config::ConnMapKey;
use crate::conn_laws;
use crate::error::Error;
use crate::packet;
use crate::packet::HdrField;
use crate::packet::PacketView;
use crate::packet::VSOCK_PKT_HDR_SIZE;
use crate::rxops::RxOps;
use crate::rxqueue;
use crate::thread_backend;
use crate::thread_backend::PollAction;
use crate::thread_backend::RxRoute;
use crate::thread_backend::TxRoute;
use crate::thread_backend::VsockThreadBackend;
use crate::vsock_conn;
use crate::vsock_conn::RecvStep;
use crate::vsock_conn::SendStep;
use crate::vsock_conn::VsockConnection;
use crate::wire;

verus! {

/// The packet is of type stream, and its destination is the host.
pub open spec fn stream_to_host(p: PacketView) -> bool {
    p.field(HdrField::Type) == 1 && p.field(HdrField::DstCid) == 2
}

/// The packet's destination port is the connection's on the host, and its source port the
/// connection's on the guest.
pub open spec fn on_ports_of(p: PacketView, c: VsockConnection) -> bool {
    p.field(HdrField::DstPort) == c.local_port && p.field(HdrField::SrcPort) == c.peer_port
}

/// No connection is on the packet's ports.
pub open spec fn unknown_ports(b: VsockThreadBackend, p: PacketView) -> bool {
    forall|id: u64| #[trigger]
        b.conn_map@.contains_key(id) ==> !on_ports_of(p, b.conn_map@[id])
}

/// Nothing of the connections has changed.
pub open spec fn unchanged(before: VsockThreadBackend, after: VsockThreadBackend) -> bool {
    &&& after.conn_map@ == before.conn_map@
    &&& after.listener_map@ == before.listener_map@
    &&& after.stream_map@ == before.stream_map@
    &&& after.backend_rxq@ == before.backend_rxq@
    &&& after.host_socket_path@ == before.host_socket_path@
    &&& after.epoll_fd == before.epoll_fd
}

/// No connection but the one under `id` has changed, and the paths and queues are those of before.
pub open spec fn others_unchanged(
    before: VsockThreadBackend,
    after: VsockThreadBackend,
    id: u64,
) -> bool {
    &&& forall|other: u64|
        other != id ==> {
            &&& #[trigger] after.conn_map@.contains_key(other) <==> before.conn_map@.contains_key(
                other,
            )
            &&& after.conn_map@.contains_key(other) ==> after.conn_map@[other]
                == before.conn_map@[other]
        }
    &&& after.stream_map@ == before.stream_map@
    &&& after.host_socket_path@ == before.host_socket_path@
    &&& after.epoll_fd == before.epoll_fd
}

/// Under which key a packet's connection is found.
proof fn lemma_found(b: VsockThreadBackend, p: PacketView)
    requires
        p.hdr.len() == VSOCK_PKT_HDR_SIZE,
        b.wf(),
    ensures
        thread_backend::packet_key(p).local_port == p.field(HdrField::DstPort),
        thread_backend::packet_key(p).peer_port == p.field(HdrField::SrcPort),
        forall|id: u64| #[trigger]
            b.conn_map@.contains_key(id) ==> (on_ports_of(p, b.conn_map@[id])
                <==> id == thread_backend::packet_key(p).id()),
{
    wire::lemma_le_limits();
    packet::law_field_bound(p.hdr, HdrField::DstPort);
    packet::law_field_bound(p.hdr, HdrField::SrcPort);
    let key = thread_backend::packet_key(p);
    assert forall|id: u64| #[trigger] b.conn_map@.contains_key(id) implies (on_ports_of(
        p,
        b.conn_map@[id],
    ) <==> id == key.id()) by {
        config::law_key_id(thread_backend::own_key(b.conn_map@[id]), key);
    }
}

/// A stream packet for the host is never dropped while a connection is on its ports: whatever its
/// operation, but for a reset, it is delivered to that connection, and to no other.
pub proof fn law_packet_reaches_its_connection(
    before: VsockThreadBackend,
    p: PacketView,
    after: VsockThreadBackend,
    route: TxRoute,
    id: u64,
)
    requires
        p.hdr.len() == VSOCK_PKT_HDR_SIZE,
        before.wf(),
        thread_backend::routed(before, p, after, route),
        stream_to_host(p),
        p.field(HdrField::Op) != 3,
        before.conn_map@.contains_key(id),
        on_ports_of(p, before.conn_map@[id]),
    ensures
        route matches TxRoute::Conn(key, step) && {
            &&& key.local_port == p.field(HdrField::DstPort)
            &&& key.peer_port == p.field(HdrField::SrcPort)
            &&& vsock_conn::delivered(before.conn_map@[id], p, after.conn_map@[id], step)
        },
        after.conn_map@.contains_key(id),
        others_unchanged(before, after, id),
        after.listener_map@ == before.listener_map@,
        after.backend_rxq@ == before.backend_rxq@,
        after.conn_map@[id].peer_buf_alloc == p.field(HdrField::BufAlloc),
        after.conn_map@[id].peer_fwd_cnt == p.field(HdrField::FwdCnt),
        forall|op: RxOps|
            before.conn_map@[id].rx_queue@.contains(op)
                ==> #[trigger] after.conn_map@[id].rx_queue@.contains(op),
{
    lemma_found(before, p);
    if let TxRoute::Conn(key, step) = route {
        conn_laws::law_delivery_takes_credit_in(
            before.conn_map@[id],
            p,
            after.conn_map@[id],
            step,
        );
    }
}

/// The data that the guest sends on a connection is written to the connection's stream, or kept
/// behind the data that already waits for it.
pub proof fn law_guest_data_reaches_the_stream(
    before: VsockThreadBackend,
    p: PacketView,
    bytes: Seq<u8>,
    after: VsockThreadBackend,
    route: TxRoute,
    id: u64,
)
    requires
        p.hdr.len() == VSOCK_PKT_HDR_SIZE,
        before.wf(),
        thread_backend::routed(before, p, after, route),
        stream_to_host(p),
        p.field(HdrField::Op) == 5,
        p.buf == Some(bytes),
        p.field(HdrField::Len) <= bytes.len(),
        before.conn_map@.contains_key(id),
        on_ports_of(p, before.conn_map@[id]),
    ensures
        after.conn_map@.contains_key(id),
        ({
            let held = before.conn_map@[id].tx_buf@;
            let data = bytes.take(p.field(HdrField::Len) as int);
            &&& held.len() == 0 ==> {
                &&& route matches TxRoute::Conn(_, SendStep::WriteData)
                &&& after.conn_map@[id].tx_buf@ == held
            }
            &&& held.len() > 0 && held.len() + data.len() <= 65536 ==> {
                &&& route matches TxRoute::Conn(_, SendStep::Done)
                &&& after.conn_map@[id].tx_buf@ == held + data
            }
        }),
{
    law_packet_reaches_its_connection(before, p, after, route, id);
    if let TxRoute::Conn(_, step) = route {
        conn_laws::law_guest_data_is_written_or_kept(
            before.conn_map@[id],
            p,
            bytes,
            after.conn_map@[id],
            step,
        );
    }
}

/// A reset from the guest ends the connection on its ports, closes its stream, and touches no other
/// connection.
pub proof fn law_reset_ends_its_connection(
    before: VsockThreadBackend,
    p: PacketView,
    after: VsockThreadBackend,
    route: TxRoute,
    id: u64,
)
    requires
        p.hdr.len() == VSOCK_PKT_HDR_SIZE,
        before.wf(),
        thread_backend::routed(before, p, after, route),
        stream_to_host(p),
        p.field(HdrField::Op) == 3,
        before.conn_map@.contains_key(id),
        on_ports_of(p, before.conn_map@[id]),
    ensures
        route == TxRoute::Close(before.conn_map@[id].stream_fd),
        !after.conn_map@.contains_key(id),
        others_unchanged(before, after, id),
        !after.listener_map@.contains_key(before.conn_map@[id].stream_fd),
        forall|fd: i32|
            fd != before.conn_map@[id].stream_fd ==> (#[trigger] after.listener_map@.contains_key(fd)
                <==> before.listener_map@.contains_key(fd)),
        unknown_ports(after, p),
{
    lemma_found(before, p);
}

/// A request on ports that no connection is on asks for a new connection on just these.
pub proof fn law_request_asks_for_a_connection(
    before: VsockThreadBackend,
    p: PacketView,
    after: VsockThreadBackend,
    route: TxRoute,
)
    requires
        p.hdr.len() == VSOCK_PKT_HDR_SIZE,
        before.wf(),
        thread_backend::routed(before, p, after, route),
        stream_to_host(p),
        p.field(HdrField::Op) == 1,
        unknown_ports(before, p),
    ensures
        route matches TxRoute::Connect(key) && {
            &&& key.local_port == p.field(HdrField::DstPort)
            &&& key.peer_port == p.field(HdrField::SrcPort)
        },
        unchanged(before, after),
{
    lemma_found(before, p);
    if before.has_conn(thread_backend::packet_key(p)) {
        assert(before.conn_map@.contains_key(thread_backend::packet_key(p).id()));
    }
}

/// A packet that is no stream packet for the host, and one but a request on ports that no
/// connection is on, is dropped and changes nothing. No other packet is dropped.
pub proof fn law_dropped_packets(
    before: VsockThreadBackend,
    p: PacketView,
    after: VsockThreadBackend,
    route: TxRoute,
)
    requires
        p.hdr.len() == VSOCK_PKT_HDR_SIZE,
        before.wf(),
        thread_backend::routed(before, p, after, route),
    ensures
        route is Dropped <==> !stream_to_host(p) || (unknown_ports(before, p) && p.field(
            HdrField::Op,
        ) != 1),
        route is Dropped ==> unchanged(before, after),
{
    lemma_found(before, p);
    let id = thread_backend::packet_key(p).id();
    if before.conn_map@.contains_key(id) {
        assert(on_ports_of(p, before.conn_map@[id]));
    }
}

/// The connection that a guest asked for is on the ports of its request, knows the guest's room for
/// data, and is queued, after all others, to answer it. Its stream leads to it and is polled for
/// reading and writing, and no other connection is touched.
pub proof fn law_new_connection_answers_its_request(
    before: VsockThreadBackend,
    p: PacketView,
    stream_fd: i32,
    after: VsockThreadBackend,
    poll: PollAction,
    key: ConnMapKey,
)
    requires
        p.hdr.len() == VSOCK_PKT_HDR_SIZE,
        thread_backend::joined(before, p, stream_fd, after, poll),
        key.local_port == p.field(HdrField::DstPort),
        key.peer_port == p.field(HdrField::SrcPort),
    ensures
        poll == PollAction::RegisterReadWrite(stream_fd),
        after.backend_rxq@ == before.backend_rxq@.push(key),
        after.listener_map@ == before.listener_map@.insert(stream_fd, key),
        after.conn_map@.contains_key(key.id()),
        others_unchanged(before, after, key.id()),
        ({
            let c = after.conn_map@[key.id()];
            &&& on_ports_of(p, c)
            &&& c.stream_fd == stream_fd
            &&& c.epoll_fd == before.epoll_fd
            &&& c.local_cid == p.field(HdrField::DstCid)
            &&& c.guest_cid == p.field(HdrField::SrcCid)
            &&& !c.connect
            &&& c.rx_queue@ == set![RxOps::Response]
            &&& c.credit() == p.field(HdrField::BufAlloc)
            &&& c.fwd_cnt == 0
            &&& c.last_fwd_cnt == 0
            &&& c.rx_cnt == 0
            &&& c.peer_fwd_cnt == 0
            &&& c.tx_buf@.len() == 0
        }),
{
    wire::lemma_le_limits();
    packet::law_field_bound(p.hdr, HdrField::DstPort);
    packet::law_field_bound(p.hdr, HdrField::SrcPort);
    packet::law_field_bound(p.hdr, HdrField::DstCid);
    packet::law_field_bound(p.hdr, HdrField::SrcCid);
    packet::law_field_bound(p.hdr, HdrField::BufAlloc);
    assert(key == thread_backend::packet_key(p));
    rxqueue::law_single(after.conn(key).rx_queue, RxOps::Response);
}

/// A connection with anything pending is queued, after all others; one with nothing pending, and a
/// key without a connection, is not.
pub proof fn law_pending_connection_is_queued(
    before: VsockThreadBackend,
    key: ConnMapKey,
    after: VsockThreadBackend,
    op: RxOps,
)
    requires
        thread_backend::requeued(before, key, after),
    ensures
        before.conn_map@.contains_key(key.id()) && before.conn_map@[key.id()].rx_queue@.contains(op)
            ==> after.backend_rxq@ == before.backend_rxq@.push(key),
        !before.conn_map@.contains_key(key.id()) || before.conn_map@[key.id()].rx_queue.queue == 0
            ==> after.backend_rxq@ == before.backend_rxq@,
        after.conn_map@ == before.conn_map@,
        after.listener_map@ == before.listener_map@,
        after.stream_map@ == before.stream_map@,
        after.host_socket_path@ == before.host_socket_path@,
        after.epoll_fd == before.epoll_fd,
{
    if before.has_conn(key) {
        rxqueue::law_empty_pends_nothing(before.conn(key).rx_queue, op);
    }
}

/// The first `n` keys of the queue have lost their connections, and the one after them has not.
pub open spec fn first_served(b: VsockThreadBackend, n: int) -> bool {
    &&& 0 <= n < b.backend_rxq@.len()
    &&& forall|i: int|
        0 <= i < n ==> !b.conn_map@.contains_key((#[trigger] b.backend_rxq@[i]).id())
    &&& b.conn_map@.contains_key(b.backend_rxq@[n].id())
}

/// Keys without a connection at the front of the queue are skipped.
proof fn lemma_live(queue: Seq<ConnMapKey>, conns: Map<u64, VsockConnection>, n: int)
    requires
        0 <= n <= queue.len(),
        forall|i: int| 0 <= i < n ==> !conns.contains_key((#[trigger] queue[i]).id()),
        n < queue.len() ==> conns.contains_key(queue[n].id()),
    ensures
        thread_backend::live(queue, conns) == queue.skip(n),
    decreases n,
{
    if n == 0 {
        assert(queue.skip(0) =~= queue);
    } else {
        assert(!conns.contains_key(queue[0].id()));
        lemma_live(queue.drop_first(), conns, n - 1);
        assert(queue.drop_first().skip(n - 1) =~= queue.skip(n));
    }
}

/// Connections are served in the order in which they were queued: the first that is still there,
/// and none is passed over. No other connection changes, and those behind it stay queued.
pub proof fn law_served_in_order(
    before: VsockThreadBackend,
    p: PacketView,
    after: VsockThreadBackend,
    q: PacketView,
    r: Result<RxRoute, Error>,
    n: int,
)
    requires
        thread_backend::served(before, p, after, q, r),
        first_served(before, n),
    ensures
        after.backend_rxq@ == before.backend_rxq@.skip(n + 1),
        others_unchanged(before, after, before.backend_rxq@[n].id()),
        r matches Ok(RxRoute::Conn(key, _)) ==> key == before.backend_rxq@[n],
        r matches Ok(RxRoute::Close(fd)) ==> fd
            == before.conn_map@[before.backend_rxq@[n].id()].stream_fd,
{
    lemma_live(before.backend_rxq@, before.conn_map@, n);
    assert(before.backend_rxq@.skip(n).drop_first() =~= before.backend_rxq@.skip(n + 1));
}

/// A connection of which nothing but a reset is pending is reset for the guest, its stream closed,
/// and it is gone.
pub proof fn law_lone_reset_is_sent(
    before: VsockThreadBackend,
    p: PacketView,
    after: VsockThreadBackend,
    q: PacketView,
    r: Result<RxRoute, Error>,
    n: int,
)
    requires
        thread_backend::served(before, p, after, q, r),
        first_served(before, n),
        before.conn_map@[before.backend_rxq@[n].id()].rx_queue@ == set![RxOps::Rst],
    ensures
        ({
            let id = before.backend_rxq@[n].id();
            let c = before.conn_map@[id];
            &&& r == Ok::<RxRoute, Error>(RxRoute::Close(c.stream_fd))
            &&& q.field(HdrField::Op) == 3
            &&& conn_laws::speaks_for(q, c)
            &&& !after.conn_map@.contains_key(id)
            &&& !after.listener_map@.contains_key(c.stream_fd)
            &&& forall|fd: i32|
                fd != c.stream_fd ==> (#[trigger] after.listener_map@.contains_key(fd)
                    <==> before.listener_map@.contains_key(fd))
        }),
{
    lemma_live(before.backend_rxq@, before.conn_map@, n);
    let c = before.conn_map@[before.backend_rxq@[n].id()];
    conn_laws::lemma_op(c, p, 3);
    assert(c.rx_queue@.contains(RxOps::Rst));
    assert(!c.rx_queue@.contains(RxOps::Request));
    assert(!c.rx_queue@.contains(RxOps::Rw));
    assert(!c.rx_queue@.contains(RxOps::Response));
    assert(!c.rx_queue@.contains(RxOps::CreditUpdate));
}

/// A connection of which anything but a reset alone is pending, or nothing, makes the packet out
/// itself, and stays.
pub proof fn law_pending_connection_is_served(
    before: VsockThreadBackend,
    p: PacketView,
    after: VsockThreadBackend,
    q: PacketView,
    r: Result<RxRoute, Error>,
    n: int,
)
    requires
        thread_backend::served(before, p, after, q, r),
        first_served(before, n),
        before.conn_map@[before.backend_rxq@[n].id()].rx_queue@ != set![RxOps::Rst],
    ensures
        ({
            let key = before.backend_rxq@[n];
            let (served, made_out, step) = vsock_conn::received(before.conn_map@[key.id()], p);
            &&& q == made_out
            &&& after.conn_map@.contains_key(key.id())
            &&& after.conn_map@[key.id()] == served
            &&& after.listener_map@ == before.listener_map@
            &&& step matches Ok(todo) ==> r == Ok::<RxRoute, Error>(RxRoute::Conn(key, todo))
            &&& step matches Err(e) ==> r == Err::<RxRoute, Error>(e)
        }),
{
    lemma_live(before.backend_rxq@, before.conn_map@, n);
    let pending = before.conn_map@[before.backend_rxq@[n].id()].rx_queue@;
    if rxqueue::first_op(pending) == Some(RxOps::Rst) {
        assert(pending =~= set![RxOps::Rst]);
    }
}

/// If no key in the queue has a connection, there is nothing for the guest, and the queue is empty
/// afterwards.
pub proof fn law_nobody_to_serve(
    before: VsockThreadBackend,
    p: PacketView,
    after: VsockThreadBackend,
    q: PacketView,
    r: Result<RxRoute, Error>,
)
    requires
        thread_backend::served(before, p, after, q, r),
        forall|i: int|
            0 <= i < before.backend_rxq@.len() ==> !before.conn_map@.contains_key(
                (#[trigger] before.backend_rxq@[i]).id(),
            ),
    ensures
        r == Err::<RxRoute, Error>(Error::NoRequestRx),
        q == p,
        after.backend_rxq@.len() == 0,
        after.conn_map@ == before.conn_map@,
        after.listener_map@ == before.listener_map@,
{
    lemma_live(before.backend_rxq@, before.conn_map@, before.backend_rxq@.len() as int);
}

/// A guest that shuts its connection down, or asks for credit information, has the connection queued
/// for its answer, after all others, whatever else is pending.
pub proof fn law_answer_is_queued(
    before: VsockThreadBackend,
    p: PacketView,
    delivered: VsockThreadBackend,
    route: TxRoute,
    key: ConnMapKey,
    step: SendStep,
    after: VsockThreadBackend,
    id: u64,
)
    requires
        p.hdr.len() == VSOCK_PKT_HDR_SIZE,
        before.wf(),
        thread_backend::routed(before, p, delivered, route),
        stream_to_host(p),
        before.conn_map@.contains_key(id),
        on_ports_of(p, before.conn_map@[id]),
        p.field(HdrField::Op) == 7 || (p.field(HdrField::Op) == 4 && p.field(
            HdrField::Flags,
        ) as u32 & 1 != 0 && p.field(HdrField::Flags) as u32 & 2 != 0
            && before.conn_map@[id].tx_buf@.len() == 0),
        route == TxRoute::Conn(key, step),
        thread_backend::requeued(delivered, key, after),
    ensures
        key.local_port == p.field(HdrField::DstPort),
        key.peer_port == p.field(HdrField::SrcPort),
        after.backend_rxq@ == before.backend_rxq@.push(key),
        after.conn_map@.contains_key(id),
        p.field(HdrField::Op) == 7 ==> after.conn_map@[id].rx_queue@
            == before.conn_map@[id].rx_queue@.insert(RxOps::CreditUpdate),
        p.field(HdrField::Op) == 4 ==> after.conn_map@[id].rx_queue@
            == before.conn_map@[id].rx_queue@.insert(RxOps::Rst),
{
    law_packet_reaches_its_connection(before, p, delivered, route, id);
    lemma_found(before, p);
    let was = before.conn_map@[id];
    let is = delivered.conn_map@[id];
    if p.field(HdrField::Op) == 7 {
        conn_laws::law_credit_request_is_answered(was, p, is, step);
        law_pending_connection_is_queued(delivered, key, after, RxOps::CreditUpdate);
    } else {
        conn_laws::law_shutdown_is_answered(was, p, is, step);
        law_pending_connection_is_queued(delivered, key, after, RxOps::Rst);
    }
}

/// A guest's request is answered with a response, from the port that it asked for to the one that it
/// asked from, and that establishes the connection: where nobody else is queued, in the next packet.
pub proof fn law_request_is_answered(
    before: VsockThreadBackend,
    request: PacketView,
    stream_fd: i32,
    joined: VsockThreadBackend,
    poll: PollAction,
    p: PacketView,
    after: VsockThreadBackend,
    q: PacketView,
    r: Result<RxRoute, Error>,
    key: ConnMapKey,
)
    requires
        request.hdr.len() == VSOCK_PKT_HDR_SIZE,
        before.backend_rxq@.len() == 0,
        thread_backend::joined(before, request, stream_fd, joined, poll),
        thread_backend::served(joined, p, after, q, r),
        key.local_port == request.field(HdrField::DstPort),
        key.peer_port == request.field(HdrField::SrcPort),
    ensures
        r == Ok::<RxRoute, Error>(RxRoute::Conn(key, RecvStep::Done)),
        q.field(HdrField::Op) == 2,
        q.field(HdrField::Type) == 1,
        q.field(HdrField::SrcCid) == request.field(HdrField::DstCid),
        q.field(HdrField::DstCid) == request.field(HdrField::SrcCid),
        q.field(HdrField::SrcPort) == request.field(HdrField::DstPort),
        q.field(HdrField::DstPort) == request.field(HdrField::SrcPort),
        q.field(HdrField::BufAlloc) == 65536,
        after.conn_map@.contains_key(key.id()),
        after.conn_map@[key.id()].connect,
        after.backend_rxq@.len() == 0,
{
    law_new_connection_answers_its_request(before, request, stream_fd, joined, poll, key);
    let c = joined.conn_map@[key.id()];
    assert(joined.backend_rxq@[0] == key);
    assert(c.rx_queue@.contains(RxOps::Response));
    law_served_in_order(joined, p, after, q, r, 0);
    law_pending_connection_is_served(joined, p, after, q, r, 0);
    conn_laws::law_response_establishes(c, p);
    conn_laws::law_receiving_serves_one(c, p);
}

} // verus!
