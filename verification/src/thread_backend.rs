//! The connections of one worker thread, and the routing of packets to and from them.

use std::collections::HashMap;
use std::collections::HashSet;
use std::collections::VecDeque;
use vstd::prelude::*;

use crate::config;
use crate::config::ConnMapKey;
use crate::error::Error;
use crate::packet;
use crate::packet::HdrField;
use crate::packet::PacketView;
use crate::packet::VsockPacket;
use crate::proto::{VSOCK_HOST_CID, VSOCK_OP_REQUEST, VSOCK_OP_RST, VSOCK_OP_RW, VSOCK_TYPE_STREAM};
use crate::rxops::RxOps;
use crate::rxqueue;
use crate::vsock_conn;
use crate::vsock_conn::RecvStep;
use crate::vsock_conn::SendStep;
use crate::vsock_conn::VsockConnection;
use crate::wire;

verus! {

/// The connections of one worker thread.
#[derive(Debug)]
pub struct VsockThreadBackend {
    /// Map of host-side stream descriptors to the key of the connection that each belongs to
    pub listener_map: HashMap<i32, ConnMapKey>,
    /// Map of connections, each under its key's code
    pub conn_map: HashMap<u64, VsockConnection>,
    /// Descriptors of the streams that have not yet said which port they want
    pub stream_map: HashSet<i32>,
    /// Keys of connections with something for the guest, in the order of service
    pub backend_rxq: VecDeque<ConnMapKey>,
    /// Path of the socket for host-side applications
    pub host_socket_path: String,
    /// Descriptor on which streams are polled
    pub epoll_fd: i32,
}

/// The key under which a connection belongs.
pub open spec fn own_key(c: VsockConnection) -> ConnMapKey {
    ConnMapKey { local_port: c.local_port, peer_port: c.peer_port }
}

/// Where a packet to the guest comes from, and what is left to do for it.
#[derive(Debug, Clone, Copy, PartialEq, Eq, Structural)]
pub enum RxRoute {
    /// The connection with this key has made it out; go on with it
    Conn(ConnMapKey, RecvStep),
    /// It is ready and resets a connection, whose stream is to be closed
    Close(i32),
}

/// Where a packet from the guest goes, and what is left to do for it.
#[derive(Debug)]
pub enum TxRoute {
    /// Nowhere: it has been dropped
    Dropped,
    /// To a new connection with this key: connect to the socket at
    /// [`VsockThreadBackend::port_path`], and go on with [`VsockThreadBackend::add_guest_conn`]
    Connect(ConnMapKey),
    /// It resets a connection, whose stream is to be closed
    Close(i32),
    /// To the connection with this key; go on with it, and afterwards with
    /// [`VsockThreadBackend::requeue`]
    Conn(ConnMapKey, SendStep),
}

/// What a stream's descriptor is to be polled for.
#[derive(Debug, Clone, Copy, PartialEq, Eq, Structural)]
pub enum PollAction {
    /// Start polling this descriptor, for read events
    RegisterRead(i32),
    /// Start polling this descriptor, for read and write events
    RegisterReadWrite(i32),
    /// Poll this descriptor for read and write events from now on
    ModifyReadWrite(i32),
}

/// The key of the connection that a packet from the guest belongs to.
pub open spec fn packet_key(p: PacketView) -> ConnMapKey {
    ConnMapKey {
        local_port: p.field(HdrField::DstPort) as u32,
        peer_port: p.field(HdrField::SrcPort) as u32,
    }
}

/// A stream packet addressed to the host.
pub open spec fn for_host(p: PacketView) -> bool {
    &&& p.field(HdrField::Type) == VSOCK_TYPE_STREAM
    &&& p.field(HdrField::DstCid) == VSOCK_HOST_CID
}

/// `queue` without the keys at its front to which there is no connection any more.
pub open spec fn live(queue: Seq<ConnMapKey>, conns: Map<u64, VsockConnection>) -> Seq<ConnMapKey>
    decreases queue.len(),
{
    if queue.len() == 0 || conns.contains_key(queue[0].id()) {
        queue
    } else {
        live(queue.drop_first(), conns)
    }
}

/// The path of the socket on which a host-side application listens for connections to `port`.
pub open spec fn path_of_port(host_socket_path: Seq<char>, port: u32) -> Seq<u8> {
    vstd::utf8::encode_utf8(host_socket_path) + seq![95u8] + vsock_conn::decimal(port as nat)
}

/// What becomes of the connections, and of a packet to the guest, when the packet is made out with
/// what is served next.
pub open spec fn served(
    before: VsockThreadBackend,
    p: PacketView,
    after: VsockThreadBackend,
    q: PacketView,
    r: Result<RxRoute, Error>,
) -> bool {
    let queue = live(before.backend_rxq@, before.conn_map@);
    &&& after.stream_map == before.stream_map
    &&& after.host_socket_path == before.host_socket_path
    &&& after.epoll_fd == before.epoll_fd
    &&& if queue.len() == 0 {
        &&& r == Err::<RxRoute, Error>(Error::NoRequestRx)
        &&& q == p
        &&& after.backend_rxq@ == queue
        &&& after.listener_map@ == before.listener_map@
        &&& after.conn_map@ == before.conn_map@
    } else {
        let key = queue[0];
        let c = before.conn(key);
        &&& after.backend_rxq@ == queue.drop_first()
        &&& if rxqueue::first_op(c.rx_queue@) == Some(RxOps::Rst) {
            &&& r == Ok::<RxRoute, Error>(RxRoute::Close(c.stream_fd))
            &&& q == c.addressed(p).with_field(HdrField::Op, VSOCK_OP_RST as nat)
            &&& after.conn_map@ == before.conn_map@.remove(key.id())
            &&& after.listener_map@ == before.listener_map@.remove(c.stream_fd)
        } else {
            let (served, made_out, step) = vsock_conn::received(c, p);
            &&& r == match step {
                Ok(step) => Ok::<RxRoute, Error>(RxRoute::Conn(key, step)),
                Err(e) => Err::<RxRoute, Error>(e),
            }
            &&& q == made_out
            &&& after.conn_map@ == before.conn_map@.insert(key.id(), served)
            &&& after.listener_map@ == before.listener_map@
        }
    }
}

/// What becomes of the connections when the guest sends `p`, and where it goes.
pub open spec fn routed(
    before: VsockThreadBackend,
    p: PacketView,
    after: VsockThreadBackend,
    route: TxRoute,
) -> bool {
    let key = packet_key(p);
    let op = p.field(HdrField::Op);
    &&& after.stream_map == before.stream_map
    &&& after.backend_rxq == before.backend_rxq
    &&& after.host_socket_path == before.host_socket_path
    &&& after.epoll_fd == before.epoll_fd
    &&& if !for_host(p) || (!before.has_conn(key) && op != VSOCK_OP_REQUEST) {
        &&& route is Dropped
        &&& after.conn_map@ == before.conn_map@
        &&& after.listener_map@ == before.listener_map@
    } else if !before.has_conn(key) {
        &&& route == TxRoute::Connect(key)
        &&& after.conn_map@ == before.conn_map@
        &&& after.listener_map@ == before.listener_map@
    } else if op == VSOCK_OP_RST {
        let fd = before.conn(key).stream_fd;
        &&& route == TxRoute::Close(fd)
        &&& after.conn_map@ == before.conn_map@.remove(key.id())
        &&& after.listener_map@ == before.listener_map@.remove(fd)
    } else {
        &&& route matches TxRoute::Conn(k, step) && k == key && vsock_conn::delivered(
            before.conn(key),
            p,
            after.conn(key),
            step,
        )
        &&& after.conn_map@ == before.conn_map@.insert(key.id(), after.conn(key))
        &&& after.listener_map@ == before.listener_map@
    }
}

/// What becomes of the connections when one is to be queued again.
pub open spec fn requeued(
    before: VsockThreadBackend,
    key: ConnMapKey,
    after: VsockThreadBackend,
) -> bool {
    &&& after == (VsockThreadBackend { backend_rxq: after.backend_rxq, ..before })
    &&& after.backend_rxq@ == if before.has_conn(key) && before.conn(key).rx_queue.queue != 0 {
        before.backend_rxq@.push(key)
    } else {
        before.backend_rxq@
    }
}

/// What becomes of the connections when the one that `p` asks for is added, and what its stream is to
/// be polled for.
pub open spec fn joined(
    before: VsockThreadBackend,
    p: PacketView,
    stream_fd: i32,
    after: VsockThreadBackend,
    poll: PollAction,
) -> bool {
    let key = packet_key(p);
    let c = after.conn(key);
    &&& poll == PollAction::RegisterReadWrite(stream_fd)
    &&& after.stream_map == before.stream_map
    &&& after.host_socket_path == before.host_socket_path
    &&& after.epoll_fd == before.epoll_fd
    &&& after.backend_rxq@ == before.backend_rxq@.push(key)
    &&& after.listener_map@ == before.listener_map@.insert(stream_fd, key)
    &&& after.conn_map@ == before.conn_map@.insert(key.id(), c)
    &&& c == (VsockConnection {
        stream_fd,
        connect: false,
        peer_port: key.peer_port,
        rx_queue: c.rx_queue,
        local_cid: p.field(HdrField::DstCid) as u64,
        local_port: key.local_port,
        guest_cid: p.field(HdrField::SrcCid) as u64,
        fwd_cnt: 0,
        last_fwd_cnt: 0,
        peer_buf_alloc: p.field(HdrField::BufAlloc) as u32,
        peer_fwd_cnt: 0,
        rx_cnt: 0,
        epoll_fd: before.epoll_fd,
        tx_buf: c.tx_buf,
    })
    &&& c.rx_queue.queue == RxOps::Response.mask()
    &&& c.tx_buf@ == Seq::<u8>::empty()
}

impl VsockThreadBackend {
    /// Every connection is in order and filed under its own ports.
    pub open spec fn wf(&self) -> bool {
        forall|id: u64| #[trigger]
            self.conn_map@.contains_key(id) ==> {
                &&& self.conn_map@[id].wf()
                &&& id == own_key(self.conn_map@[id]).id()
            }
    }

    /// There is a connection with this key.
    pub open spec fn has_conn(&self, key: ConnMapKey) -> bool {
        self.conn_map@.contains_key(key.id())
    }

    /// The connection with this key.
    pub open spec fn conn(&self, key: ConnMapKey) -> VsockConnection {
        self.conn_map@[key.id()]
    }

    /// Every stream that is listened to leads to the connection that it belongs to.
    pub open spec fn linked(&self) -> bool {
        forall|fd: i32| #[trigger]
            self.listener_map@.contains_key(fd) ==> {
                &&& self.has_conn(self.listener_map@[fd])
                &&& self.conn(self.listener_map@[fd]).stream_fd == fd
            }
    }

    /// A backend without connections
    pub fn new(host_socket_path: String, epoll_fd: i32) -> (r: Self)
        ensures
            r.wf(),
            r.linked(),
            r.listener_map@ == Map::<i32, ConnMapKey>::empty(),
            r.conn_map@ == Map::<u64, VsockConnection>::empty(),
            r.stream_map@ == Set::<i32>::empty(),
            r.backend_rxq@ == Seq::<ConnMapKey>::empty(),
            r.host_socket_path == host_socket_path,
            r.epoll_fd == epoll_fd,
    {
        VsockThreadBackend {
            listener_map: HashMap::new(),
            conn_map: HashMap::new(),
            stream_map: HashSet::new(),
            backend_rxq: VecDeque::new(),
            host_socket_path,
            epoll_fd,
        }
    }

    /// The key whose connection is served next, taken off the queue
    pub fn next_key(&mut self) -> (r: Option<ConnMapKey>)
        ensures
            ({
                let queue = live(old(self).backend_rxq@, old(self).conn_map@);
                &&& r == if queue.len() > 0 { Some(queue[0]) } else { None::<ConnMapKey> }
                &&& final(self).backend_rxq@ == if queue.len() > 0 {
                    queue.drop_first()
                } else {
                    queue
                }
                &&& *final(self) == (VsockThreadBackend {
                    backend_rxq: final(self).backend_rxq,
                    ..*old(self)
                })
                &&& r matches Some(key) ==> old(self).has_conn(key)
            }),
    {
        loop
            invariant
                *self == (VsockThreadBackend { backend_rxq: self.backend_rxq, ..*old(self) }),
                live(self.backend_rxq@, self.conn_map@) == live(
                    old(self).backend_rxq@,
                    old(self).conn_map@,
                ),
            decreases self.backend_rxq@.len(),
        {
            let ghost queue = self.backend_rxq@;
            match self.backend_rxq.pop_front() {
                Some(key) => {
                    assert(self.backend_rxq@ =~= queue.drop_first());
                    if self.conn_map.contains_key(&key.code()) {
                        return Some(key);
                    }
                },
                None => return None,
            }
        }
    }

    /// Deliver a vsock packet to the guest vsock driver: make out `pkt` with what the connection
    /// that is served next has for the guest.
    pub fn recv_pkt(&mut self, pkt: &mut VsockPacket) -> (r: Result<RxRoute, Error>)
        requires
            old(self).wf(),
        ensures
            final(self).wf(),
            old(self).linked() ==> final(self).linked(),
            served(*old(self), old(pkt)@, *final(self), final(pkt)@, r),
    {
        let key = match self.next_key() {
            Some(key) => key,
            None => return Err(Error::NoRequestRx),
        };
        proof {
            assert forall|k: ConnMapKey| #[trigger] k.id() == key.id() implies k == key by {
                config::law_key_id(k, key);
            }
        }
        let mut conn = match self.conn_map.remove(&key.code()) {
            Some(conn) => conn,
            None => return Err(Error::NoRequestRx),
        };
        if conn.rx_queue.peek() == Some(RxOps::Rst) {
            // Nothing but the reset is left to be said
            conn.init_pkt(pkt).set_op(VSOCK_OP_RST);
            self.listener_map.remove(&conn.stream_fd);
            return Ok(RxRoute::Close(conn.stream_fd));
        }
        let step = conn.recv_pkt(pkt);
        self.conn_map.insert(key.code(), conn);
        assert(self.conn_map@ =~= old(self).conn_map@.insert(key.id(), conn));
        match step {
            Ok(step) => Ok(RxRoute::Conn(key, step)),
            Err(e) => Err(e),
        }
    }

    /// Deliver a guest generated packet to its destination in the backend.
    ///
    /// Only stream packets for the host are taken. One without a connection can ask for a new one;
    /// a reset ends its connection.
    pub fn send_pkt(&mut self, pkt: &VsockPacket) -> (r: TxRoute)
        requires
            old(self).wf(),
            pkt@.field(HdrField::Op) == VSOCK_OP_RW ==> (pkt@.buf matches Some(bytes)
                ==> pkt@.field(HdrField::Len) <= bytes.len()),
        ensures
            final(self).wf(),
            old(self).linked() ==> final(self).linked(),
            routed(*old(self), pkt@, *final(self), r),
    {
        let key = ConnMapKey::new(pkt.dst_port(), pkt.src_port());
        if pkt.pkt_type() != VSOCK_TYPE_STREAM || pkt.dst_cid() != VSOCK_HOST_CID {
            return TxRoute::Dropped;
        }
        proof {
            assert forall|k: ConnMapKey| #[trigger] k.id() == key.id() implies k == key by {
                config::law_key_id(k, key);
            }
        }
        let mut conn = match self.conn_map.remove(&key.code()) {
            Some(conn) => conn,
            None => {
                assert(self.conn_map@ =~= old(self).conn_map@);
                return if pkt.op() == VSOCK_OP_REQUEST {
                    TxRoute::Connect(key)
                } else {
                    TxRoute::Dropped
                };
            },
        };
        if pkt.op() == VSOCK_OP_RST {
            self.listener_map.remove(&conn.stream_fd);
            return TxRoute::Close(conn.stream_fd);
        }
        let step = conn.send_pkt(pkt);
        self.conn_map.insert(key.code(), conn);
        assert(self.conn_map@ =~= old(self).conn_map@.insert(key.id(), conn));
        TxRoute::Conn(key, step)
    }

    /// Queue a connection for service again if it has something for the guest
    pub fn requeue(&mut self, key: ConnMapKey)
        ensures
            requeued(*old(self), key, *final(self)),
    {
        let pending = match self.conn_map.get(&key.code()) {
            Some(conn) => conn.rx_queue.pending_rx(),
            None => false,
        };
        if pending {
            self.backend_rxq.push_back(key);
        }
    }

    /// The path of the socket on which a host-side application listens for connections to `port`:
    /// the host socket's path, an underscore and the port
    pub fn port_path(&self, port: u32) -> (r: Vec<u8>)
        ensures
            r@ == path_of_port(self.host_socket_path@, port),
    {
        let mut path: Vec<u8> = vstd::slice::slice_to_vec(self.host_socket_path.as_str().as_bytes());
        // "_"
        path.push(95);
        vsock_conn::push_decimal(&mut path, port);
        assert(path@ =~= vstd::utf8::encode_utf8(self.host_socket_path@) + seq![95u8]
            + vsock_conn::decimal(port as nat));
        path
    }

    /// Add the connection that the guest asked for with `pkt`, once there is a stream for it, and
    /// have the guest answered. The stream is to be polled for read and write events
    pub fn add_guest_conn(&mut self, pkt: &VsockPacket, stream_fd: i32) -> (r: PollAction)
        requires
            old(self).wf(),
        ensures
            final(self).wf(),
            old(self).linked() && !old(self).has_conn(packet_key(pkt@)) ==> final(self).linked(),
            joined(*old(self), pkt@, stream_fd, *final(self), r),
    {
        let key = ConnMapKey::new(pkt.dst_port(), pkt.src_port());
        proof {
            assert forall|k: ConnMapKey| #[trigger] k.id() == key.id() implies k == key by {
                config::law_key_id(k, key);
            }
        }
        let conn = VsockConnection::new_peer_init(
            stream_fd,
            pkt.dst_cid(),
            key.local_port,
            pkt.src_cid(),
            key.peer_port,
            self.epoll_fd,
            pkt.buf_alloc(),
        );
        self.listener_map.insert(stream_fd, key);
        self.conn_map.insert(key.code(), conn);
        self.backend_rxq.push_back(key);
        PollAction::RegisterReadWrite(stream_fd)
    }

    /// Check if there are any pending rx requests from the backend
    pub fn pending_rx(&self) -> (r: bool)
        ensures
            r == (self.backend_rxq@.len() > 0),
    {
        self.backend_rxq.len() != 0
    }
}

/// A packet that answers one of a connection, with the ports exchanged, belongs to that connection,
/// whatever operation the answered packet asked for.
pub proof fn law_answer_finds_connection(
    c: VsockConnection,
    p: PacketView,
    op: u16,
    answer: PacketView,
)
    requires
        ({
            let asked = c.addressed(p).with_field(HdrField::Op, op as nat);
            &&& answer.field(HdrField::SrcPort) == asked.field(HdrField::DstPort)
            &&& answer.field(HdrField::DstPort) == asked.field(HdrField::SrcPort)
        }),
    ensures
        packet_key(answer) == own_key(c),
{
    let blank = c.addressed(p);
    vsock_conn::law_addressed(c, p);
    wire::lemma_le_limits();
    packet::law_header_fields(blank, HdrField::Op, op as nat, HdrField::SrcPort);
    packet::law_header_fields(blank, HdrField::Op, op as nat, HdrField::DstPort);
}

} // verus!
