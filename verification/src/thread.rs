//! A worker thread of the backend: what it does on each event on its streams and queues.
//!
//! The thread itself performs no I/O. Its methods take in what happened and say what is to be done.

use vstd::prelude::*;

use crate::config;
use crate::config::ConnMapKey;
use crate::error::Error;
use crate::packet::VSOCK_PKT_HDR_SIZE;
use crate::proto::VSOCK_HOST_CID;
use crate::rxops::RxOps;
use crate::rxqueue::RxQueue;
use crate::thread_backend::PollAction;
use crate::thread_backend::VsockThreadBackend;
use crate::txbuf::CONN_TX_BUF_SIZE;
use crate::vsock_conn::VsockConnection;

verus! {

/// The set of events that a descriptor is polled ready for.
#[derive(Debug, Clone, Copy, PartialEq, Eq, Structural)]
pub enum Readiness {
    /// EPOLLIN alone
    Readable,
    /// EPOLLOUT alone
    Writable,
    /// Any other set
    Other,
}

/// What to do about an event on a polled descriptor.
#[derive(Debug, Clone, Copy, PartialEq, Eq, Structural)]
pub enum EventAction {
    /// Nothing
    Ignore,
    /// Accept a connection on the host socket, and go on with
    /// [`VhostUserVsockThread::add_stream_listener`]
    Accept,
    /// Read the wanted port from the stream, and go on with
    /// [`VhostUserVsockThread::connect_stream`]
    ReadPort,
    /// Flush the tx buffer of the connection with this key to the stream, and go on with
    /// [`VhostUserVsockThread::flushed`]
    Flush(ConnMapKey),
    /// Stop polling the stream, until its data has been read
    Unregister,
}

/// What came of a wait for events.
#[derive(Debug, Clone, Copy, PartialEq, Eq, Structural)]
pub enum WaitOutcome {
    /// This many events are there
    Ready(usize),
    /// A signal interrupted the wait
    Interrupted,
    /// The wait failed
    Failed,
}

/// What to do after a wait for events.
#[derive(Debug, Clone, Copy, PartialEq, Eq, Structural)]
pub enum WaitStep {
    /// Handle this many events; that ends it
    Handle(usize),
    /// Wait again
    Retry,
    /// Give up
    GiveUp,
}

/// What happened while a queue is gone through.
#[derive(Debug, Clone, Copy, PartialEq, Eq, Structural)]
pub enum QueueEvent {
    /// The queue is about to be gone through, and whether guest memory is configured
    Start(bool),
    /// The queue could not be iterated
    IterateFailed,
    /// There is no available chain (any more)
    Exhausted,
    /// A chain was available but does not hold a packet
    Malformed,
    /// A chain was available but the connections did not take its packet
    Refused,
    /// The packet of an available chain was handled; the length in its header is this
    Handled(u32),
}

/// What to do next with a queue that is gone through.
#[derive(Debug, Clone, Copy, PartialEq, Eq, Structural)]
pub enum QueueStep {
    /// Look for the next available chain
    Next,
    /// Return the chain to the guest, with this used length, and look for the next one
    Return(u32),
    /// Return the chain to the guest, with this used length; that ends it
    ReturnLast(u32),
    /// Leave the chain available; that ends it
    PutBack,
    /// End it
    Finish,
}

/// What happened while a queue is drained.
#[derive(Debug, Clone, Copy, PartialEq, Eq, Structural)]
pub enum DrainEvent {
    /// The queue is about to be drained
    Start,
    /// The queue has been gone through
    GoneThrough,
    /// Notifications are enabled again, and whether the queue has got new entries since
    Enabled(bool),
}

/// What to do next with a queue that is drained.
#[derive(Debug, Clone, Copy, PartialEq, Eq, Structural)]
pub enum DrainStep {
    /// Go through the queue
    GoThrough,
    /// Disable notifications, and go through the queue
    DisableAndGoThrough,
    /// Enable notifications
    Enable,
    /// End it
    Finish,
}

/// The state of a worker thread.
#[derive(Debug)]
pub struct VhostUserVsockThread {
    /// Whether the guest uses VIRTIO_RING_F_EVENT_IDX
    pub event_idx: bool,
    /// Descriptor of the socket on which host-side applications connect
    pub host_sock: i32,
    /// Descriptor on which streams are polled
    pub epoll_fd: i32,
    /// The connections
    pub thread_backend: VsockThreadBackend,
    /// CID of the guest
    pub guest_cid: u64,
    /// The last port given to a host-side application
    pub local_port: u32,
}

impl QueueEvent {
    /// A chain was available.
    pub open spec fn is_chain(self) -> bool {
        self is Malformed || self is Refused || self is Handled
    }
}

/// How the rx queue is gone through: a chain with a packet is returned with the packet's size, one
/// that cannot hold one with none; and that ends it once nothing is `pending` for the guest. The
/// size is taken modulo 2^32.
pub open spec fn rx_queue_step(pending: bool, event: QueueEvent) -> Result<QueueStep, Error> {
    match event {
        QueueEvent::Start(has_mem) => if has_mem {
            Ok(QueueStep::Next)
        } else {
            Err(Error::NoMemoryConfigured)
        },
        QueueEvent::IterateFailed => Err(Error::IterateQueue),
        QueueEvent::Exhausted => Ok(QueueStep::Finish),
        QueueEvent::Malformed => Ok(
            if pending {
                QueueStep::Return(0)
            } else {
                QueueStep::ReturnLast(0)
            },
        ),
        QueueEvent::Refused => Ok(QueueStep::PutBack),
        QueueEvent::Handled(len) => {
            let used_len = ((VSOCK_PKT_HDR_SIZE + len) % 0x1_0000_0000) as u32;
            Ok(
                if pending {
                    QueueStep::Return(used_len)
                } else {
                    QueueStep::ReturnLast(used_len)
                },
            )
        },
    }
}

/// How the tx queue is gone through: a chain whose packet was taken is returned, one that does not
/// hold a packet is passed over.
pub open spec fn tx_queue_step(event: QueueEvent) -> Result<QueueStep, Error> {
    match event {
        QueueEvent::Start(has_mem) => if has_mem {
            Ok(QueueStep::Next)
        } else {
            Err(Error::NoMemoryConfigured)
        },
        QueueEvent::IterateFailed => Err(Error::IterateQueue),
        QueueEvent::Exhausted => Ok(QueueStep::Finish),
        QueueEvent::Malformed => Ok(QueueStep::Next),
        QueueEvent::Refused => Ok(QueueStep::PutBack),
        QueueEvent::Handled(len) => Ok(QueueStep::Return(0)),
    }
}

/// No rx chain is lost: whatever came of an available one, it is returned to the guest or left
/// available. Nothing is looked for once nothing is pending.
pub proof fn law_rx_chain_answered(pending: bool, event: QueueEvent)
    requires
        event.is_chain(),
    ensures
        rx_queue_step(pending, event) matches Ok(step) && (step is Return || step is ReturnLast
            || step is PutBack),
        rx_queue_step(pending, event) matches Ok(QueueStep::Return(_)) ==> pending,
{
}

/// With EVENT_IDX, a drain that has disabled notifications ends only after they have been enabled
/// again without new entries turning up, or without anything worth going through them.
pub proof fn law_drain_enables(worth: bool, event: DrainEvent)
    requires
        drain_step(true, worth, event) is Finish,
    ensures
        event is Start || event is Enabled,
        event == DrainEvent::Enabled(true) || event is Start ==> !worth,
{
}

/// How a queue is drained: with EVENT_IDX it is gone through again, notifications disabled, for as
/// long as enabling them finds new entries and `worth` holds; without, it is gone through once.
pub open spec fn drain_step(event_idx: bool, worth: bool, event: DrainEvent) -> DrainStep {
    match event {
        DrainEvent::GoneThrough => if event_idx { DrainStep::Enable } else { DrainStep::Finish },
        DrainEvent::Start => if !event_idx {
            DrainStep::GoThrough
        } else if worth {
            DrainStep::DisableAndGoThrough
        } else {
            DrainStep::Finish
        },
        DrainEvent::Enabled(found) => if event_idx && found && worth {
            DrainStep::DisableAndGoThrough
        } else {
            DrainStep::Finish
        },
    }
}

/// What to do after a wait for events.
pub open spec fn wait_step(outcome: WaitOutcome) -> WaitStep {
    match outcome {
        WaitOutcome::Ready(n) => WaitStep::Handle(n),
        WaitOutcome::Interrupted => WaitStep::Retry,
        WaitOutcome::Failed => WaitStep::GiveUp,
    }
}

/// Whether a chain has been available by now, where `used` tells whether one was before.
pub open spec fn used_after(used: bool, event: QueueEvent) -> bool {
    used || event.is_chain()
}

/// Whether the guest is to be notified of a returned chain.
pub open spec fn signals(event_idx: bool, wanted: Option<bool>) -> bool {
    !event_idx || wanted != Some(false)
}

/// Whether the guest is to be notified of a returned chain: with EVENT_IDX, if it asks for that or
/// that cannot be found out (`None`); without, always
pub fn needs_signal(event_idx: bool, wanted: Option<bool>) -> (r: bool)
    ensures
        r == signals(event_idx, wanted),
{
    if event_idx {
        match wanted {
            Some(needs_notification) => needs_notification,
            None => true,
        }
    } else {
        true
    }
}

/// Enqueuing a request on an empty queue makes it pending alone.
proof fn lemma_single_request(q: RxQueue)
    requires
        q.queue == 0,
    ensures
        q@ == Set::<RxOps>::empty(),
        q.with(RxOps::Request).queue == RxOps::Request.mask(),
{
    assert(forall|m: u8| 0u8 & m == 0) by (bit_vector);
    assert(0u8 | 1u8 == 1u8) by (bit_vector);
    assert(q@ =~= Set::<RxOps>::empty());
}

/// How a thread goes through the rx queue.
pub open spec fn rx_step(t: VhostUserVsockThread, event: QueueEvent) -> Result<QueueStep, Error> {
    rx_queue_step(t.thread_backend.backend_rxq@.len() > 0, event)
}

/// How a thread drains the rx queue.
pub open spec fn rx_drain_step(
    t: VhostUserVsockThread,
    event_idx: bool,
    event: DrainEvent,
) -> DrainStep {
    drain_step(event_idx, t.thread_backend.backend_rxq@.len() > 0, event)
}

/// How the tx queue is drained.
pub open spec fn tx_drain_step(event_idx: bool, event: DrainEvent) -> DrainStep {
    drain_step(event_idx, true, event)
}

/// What becomes of a thread on an event on a polled descriptor, and what is to be done.
pub open spec fn event_taken(
    before: VhostUserVsockThread,
    fd: i32,
    evset: Readiness,
    after: VhostUserVsockThread,
    r: EventAction,
) -> bool {
    let b = before.thread_backend;
    let a = after.thread_backend;
    &&& after == (VhostUserVsockThread { thread_backend: a, ..before })
    &&& if fd == before.host_sock {
        r == EventAction::Accept && a == b
    } else if !b.listener_map@.contains_key(fd) {
        if evset == Readiness::Readable {
            &&& r == EventAction::ReadPort
            &&& a.stream_map@ == b.stream_map@.remove(fd)
            &&& a == (VsockThreadBackend { stream_map: a.stream_map, ..b })
        } else {
            r == EventAction::Ignore && a == b
        }
    } else {
        let key = b.listener_map@[fd];
        if evset == Readiness::Writable {
            r == EventAction::Flush(key) && a == b
        } else if b.conn(key).connect {
            &&& r == EventAction::Unregister
            &&& a.conn_map@ == b.conn_map@.insert(
                key.id(),
                VsockConnection {
                    rx_queue: b.conn(key).rx_queue.with(RxOps::Rw),
                    ..b.conn(key)
                },
            )
            &&& a.backend_rxq@ == b.backend_rxq@.push(key)
            &&& a == (VsockThreadBackend {
                conn_map: a.conn_map,
                backend_rxq: a.backend_rxq,
                ..b
            })
        } else {
            r == EventAction::Ignore && a == b
        }
    }
}

/// What becomes of a thread when a stream was accepted on the host socket, and what the stream is to
/// be polled for.
pub open spec fn accepted(
    before: VhostUserVsockThread,
    stream_fd: i32,
    after: VhostUserVsockThread,
    poll: PollAction,
) -> bool {
    &&& poll == PollAction::RegisterRead(stream_fd)
    &&& after == (VhostUserVsockThread {
        thread_backend: VsockThreadBackend {
            stream_map: after.thread_backend.stream_map,
            ..before.thread_backend
        },
        ..before
    })
    &&& after.thread_backend.stream_map@ == before.thread_backend.stream_map@.insert(stream_fd)
}

/// What becomes of a thread when a connection is opened for a stream that wants `peer_port`, and
/// what the stream is to be polled for.
pub open spec fn opened(
    before: VhostUserVsockThread,
    fd: i32,
    peer_port: u32,
    after: VhostUserVsockThread,
    poll: PollAction,
) -> bool {
    let b = before.thread_backend;
    let a = after.thread_backend;
    let local_port = (before.local_port + 1) as u32;
    let key = ConnMapKey { local_port, peer_port };
    let c = a.conn(key);
    &&& poll == PollAction::ModifyReadWrite(fd)
    &&& a.listener_map@ == b.listener_map@.insert(fd, key)
    &&& a.conn_map@ == b.conn_map@.insert(key.id(), c)
    &&& c == (VsockConnection {
        stream_fd: fd,
        connect: false,
        peer_port,
        rx_queue: c.rx_queue,
        local_cid: VSOCK_HOST_CID,
        local_port,
        guest_cid: before.guest_cid,
        fwd_cnt: 0,
        last_fwd_cnt: 0,
        peer_buf_alloc: 0,
        peer_fwd_cnt: 0,
        rx_cnt: 0,
        epoll_fd: before.epoll_fd,
        tx_buf: c.tx_buf,
    })
    &&& c.rx_queue@ == Set::<RxOps>::empty().insert(RxOps::Request)
    &&& c.rx_queue.queue == RxOps::Request.mask()
    &&& c.tx_buf@ == Seq::<u8>::empty()
    &&& a.backend_rxq@ == b.backend_rxq@.push(key)
    &&& a == (VsockThreadBackend {
        listener_map: a.listener_map,
        conn_map: a.conn_map,
        backend_rxq: a.backend_rxq,
        ..b
    })
    &&& after == (VhostUserVsockThread { thread_backend: a, local_port, ..before })
}

/// What becomes of a thread when `cnt` bytes of a connection have been flushed to its stream.
pub open spec fn flush_counted(
    before: VhostUserVsockThread,
    key: ConnMapKey,
    cnt: nat,
    after: VhostUserVsockThread,
) -> bool {
    let b = before.thread_backend;
    let a = after.thread_backend;
    &&& after == (VhostUserVsockThread { thread_backend: a, ..before })
    &&& a.conn_map@ == b.conn_map@.insert(
        key.id(),
        VsockConnection {
            fwd_cnt: ((b.conn(key).fwd_cnt + cnt) % 0x1_0000_0000) as u32,
            rx_queue: b.conn(key).rx_queue.with(RxOps::CreditUpdate),
            ..b.conn(key)
        },
    )
    &&& a.backend_rxq@ == b.backend_rxq@.push(key)
    &&& a == (VsockThreadBackend { conn_map: a.conn_map, backend_rxq: a.backend_rxq, ..b })
}

impl VhostUserVsockThread {
    /// The connections are in order.
    pub open spec fn wf(&self) -> bool {
        self.thread_backend.wf()
    }

    /// An event on `fd` can be made sense of: a stream that is not listened to has been accepted,
    /// and one that is listened to has a connection.
    pub open spec fn expects(&self, fd: i32, evset: Readiness) -> bool {
        fd == self.host_sock || if self.thread_backend.listener_map@.contains_key(fd) {
            self.thread_backend.has_conn(self.thread_backend.listener_map@[fd])
        } else {
            evset == Readiness::Readable ==> self.thread_backend.stream_map@.contains(fd)
        }
    }

    /// All ports in use on the host's side have been given out already.
    pub open spec fn ports_given(&self) -> bool {
        forall|id: u64| #[trigger]
            self.thread_backend.conn_map@.contains_key(id)
                ==> self.thread_backend.conn_map@[id].local_port <= self.local_port
    }

    /// A thread without connections, for applications that connect on `host_sock`
    pub fn new(uds_path: String, guest_cid: u64, host_sock: i32, epoll_fd: i32) -> (r: Self)
        ensures
            r.wf(),
            r.thread_backend.linked(),
            r.ports_given(),
            !r.event_idx,
            r.host_sock == host_sock,
            r.epoll_fd == epoll_fd,
            r.guest_cid == guest_cid,
            r.local_port == 0,
            r.thread_backend.listener_map@ == Map::<i32, ConnMapKey>::empty(),
            r.thread_backend.conn_map@ == Map::<u64, VsockConnection>::empty(),
            r.thread_backend.stream_map@ == Set::<i32>::empty(),
            r.thread_backend.backend_rxq@ == Seq::<ConnMapKey>::empty(),
            r.thread_backend.host_socket_path == uds_path,
            r.thread_backend.epoll_fd == epoll_fd,
    {
        VhostUserVsockThread {
            event_idx: false,
            host_sock,
            epoll_fd,
            thread_backend: VsockThreadBackend::new(uds_path, epoll_fd),
            guest_cid,
            local_port: 0,
        }
    }

    /// Whether an event on `fd` can be made sense of
    pub fn is_expected(&self, fd: i32, evset: Readiness) -> (r: bool)
        ensures
            r == self.expects(fd, evset),
    {
        if fd == self.host_sock {
            return true;
        }
        match self.thread_backend.listener_map.get(&fd) {
            Some(key) => self.thread_backend.conn_map.contains_key(&key.code()),
            None => evset != Readiness::Readable || self.thread_backend.stream_map.contains(&fd),
        }
    }

    /// Handle an event on a polled descriptor.
    ///
    /// A stream that has not said which port it wants is asked for it. One that belongs to a
    /// connection has its data queued for the guest, or takes what is left for it in the buffer.
    pub fn handle_event(&mut self, fd: i32, evset: Readiness) -> (r: EventAction)
        requires
            old(self).wf(),
            old(self).expects(fd, evset),
        ensures
            final(self).wf(),
            old(self).thread_backend.linked() ==> final(self).thread_backend.linked(),
            event_taken(*old(self), fd, evset, *final(self), r),
    {
        if fd == self.host_sock {
            return EventAction::Accept;
        }
        let key = match self.thread_backend.listener_map.get(&fd) {
            Some(key) => *key,
            None => {
                // The stream represented by fd has not yet established a
                // connection with the application running in the guest
                if evset != Readiness::Readable {
                    return EventAction::Ignore;
                }
                // Local peer is sending a "connect PORT\n" command
                self.thread_backend.stream_map.remove(&fd);
                return EventAction::ReadPort;
            },
        };
        if evset == Readiness::Writable {
            return EventAction::Flush(key);
        }
        let connected = match self.thread_backend.conn_map.get(&key.code()) {
            Some(conn) => conn.connect,
            None => false,
        };
        if connected {
            // Enqueue a read request
            self.enqueue_rx(key, RxOps::Rw);
            EventAction::Unregister
        } else {
            EventAction::Ignore
        }
    }

    /// Listen to a stream that was accepted on the host socket: it is to be polled for the port that
    /// it wants
    pub fn add_stream_listener(&mut self, stream_fd: i32) -> (r: PollAction)
        requires
            old(self).wf(),
        ensures
            final(self).wf(),
            old(self).thread_backend.linked() ==> final(self).thread_backend.linked(),
            accepted(*old(self), stream_fd, *final(self), r),
    {
        self.thread_backend.stream_map.insert(stream_fd);
        PollAction::RegisterRead(stream_fd)
    }

    /// The next unused port on the host's side
    pub fn allocate_local_port(&mut self) -> (r: u32)
        requires
            old(self).local_port < u32::MAX,
        ensures
            r == old(self).local_port + 1,
            *final(self) == (VhostUserVsockThread { local_port: r, ..*old(self) }),
    {
        self.local_port = self.local_port + 1;
        self.local_port
    }

    /// Open a connection to the guest for a stream that wants `peer_port`, on a port of its own,
    /// and have the guest asked for it. The stream is then to be polled for read and write events
    pub fn connect_stream(&mut self, fd: i32, peer_port: u32) -> (r: PollAction)
        requires
            old(self).wf(),
            old(self).local_port < u32::MAX,
        ensures
            final(self).wf(),
            old(self).ports_given() ==> final(self).ports_given(),
            ({
                let before = old(self).thread_backend;
                let key = ConnMapKey { local_port: (old(self).local_port + 1) as u32, peer_port };
                &&& old(self).ports_given() ==> !before.has_conn(key)
                &&& before.linked() && !before.has_conn(key)
                    ==> final(self).thread_backend.linked()
            }),
            opened(*old(self), fd, peer_port, *final(self), r),
    {
        let local_port = self.allocate_local_port();
        let conn_map_key = ConnMapKey::new(local_port, peer_port);
        proof {
            assert forall|k: ConnMapKey| #[trigger] k.id() == conn_map_key.id() implies k
                == conn_map_key by {
                config::law_key_id(k, conn_map_key);
            }
        }
        let mut new_vsock_conn = VsockConnection::new_local_init(
            fd,
            VSOCK_HOST_CID,
            local_port,
            self.guest_cid,
            peer_port,
            self.epoll_fd,
        );
        proof {
            lemma_single_request(new_vsock_conn.rx_queue);
        }
        new_vsock_conn.rx_queue.enqueue(RxOps::Request);
        new_vsock_conn.set_peer_port(peer_port);

        self.thread_backend.listener_map.insert(fd, conn_map_key);
        self.thread_backend.conn_map.insert(conn_map_key.code(), new_vsock_conn);
        self.thread_backend.backend_rxq.push_back(conn_map_key);
        PollAction::ModifyReadWrite(fd)
    }

    /// Take in that `cnt` bytes of a connection's tx buffer have been flushed to its stream: count
    /// them as forwarded, and have the guest told
    pub fn flushed(&mut self, key: ConnMapKey, cnt: usize)
        requires
            old(self).wf(),
            old(self).thread_backend.has_conn(key),
            cnt <= CONN_TX_BUF_SIZE,
        ensures
            final(self).wf(),
            old(self).thread_backend.linked() ==> final(self).thread_backend.linked(),
            flush_counted(*old(self), key, cnt as nat, *final(self)),
    {
        match self.thread_backend.conn_map.remove(&key.code()) {
            Some(mut conn) => {
                conn.fwd_cnt = conn.fwd_cnt.wrapping_add(cnt as u32);
                self.thread_backend.conn_map.insert(key.code(), conn);
            },
            None => {},
        }
        self.enqueue_rx(key, RxOps::CreditUpdate);
        assert(self.thread_backend.conn_map@ =~= old(self).thread_backend.conn_map@.insert(
            key.id(),
            self.thread_backend.conn(key),
        ));
    }

    /// Take in what came of a wait for events on the polled descriptors
    pub fn process_backend_evt(&self, outcome: WaitOutcome) -> (r: WaitStep)
        ensures
            r == wait_step(outcome),
    {
        match outcome {
            WaitOutcome::Ready(n) => WaitStep::Handle(n),
            WaitOutcome::Interrupted => WaitStep::Retry,
            WaitOutcome::Failed => WaitStep::GiveUp,
        }
    }

    /// Go through the rx queue: every available chain is filled with a packet and returned, or
    /// returned empty if it cannot hold one, until nothing is pending for the guest. `used_any`
    /// tells whether a chain was available.
    pub fn process_rx_queue(&self, used_any: &mut bool, event: QueueEvent) -> (r: Result<
        QueueStep,
        Error,
    >)
        ensures
            *final(used_any) == used_after(*old(used_any), event),
            r == rx_step(*self, event),
    {
        let used_len: u32 = match event {
            QueueEvent::Start(has_mem) => {
                return if has_mem { Ok(QueueStep::Next) } else { Err(Error::NoMemoryConfigured) };
            },
            QueueEvent::IterateFailed => return Err(Error::IterateQueue),
            QueueEvent::Exhausted => return Ok(QueueStep::Finish),
            QueueEvent::Malformed => 0,
            QueueEvent::Refused => {
                *used_any = true;
                return Ok(QueueStep::PutBack);
            },
            QueueEvent::Handled(len) => len.wrapping_add(VSOCK_PKT_HDR_SIZE as u32),
        };
        *used_any = true;
        if self.thread_backend.pending_rx() {
            Ok(QueueStep::Return(used_len))
        } else {
            Ok(QueueStep::ReturnLast(used_len))
        }
    }

    /// Drain the rx queue.
    ///
    /// To properly handle EVENT_IDX the queue has to be gone through until no new entries are
    /// found on it, as the queue checks its available index only once. It is not gone through
    /// while nothing is pending for the guest.
    pub fn process_rx(&self, event_idx: bool, event: DrainEvent) -> (r: DrainStep)
        ensures
            r == rx_drain_step(*self, event_idx, event),
    {
        if event_idx {
            match event {
                DrainEvent::GoneThrough => DrainStep::Enable,
                DrainEvent::Enabled(false) => DrainStep::Finish,
                _ => {
                    if self.thread_backend.pending_rx() {
                        DrainStep::DisableAndGoThrough
                    } else {
                        DrainStep::Finish
                    }
                },
            }
        } else {
            match event {
                DrainEvent::Start => DrainStep::GoThrough,
                _ => DrainStep::Finish,
            }
        }
    }

    /// Go through the tx queue: the packet of every available chain is taken and the chain
    /// returned. A chain that does not hold a packet is passed over. `used_any` tells whether a
    /// chain was available.
    pub fn process_tx_queue(&self, used_any: &mut bool, event: QueueEvent) -> (r: Result<
        QueueStep,
        Error,
    >)
        ensures
            *final(used_any) == used_after(*old(used_any), event),
            r == tx_queue_step(event),
    {
        match event {
            QueueEvent::Start(has_mem) => {
                return if has_mem { Ok(QueueStep::Next) } else { Err(Error::NoMemoryConfigured) };
            },
            QueueEvent::IterateFailed => return Err(Error::IterateQueue),
            QueueEvent::Exhausted => return Ok(QueueStep::Finish),
            _ => {},
        }
        *used_any = true;
        match event {
            QueueEvent::Malformed => Ok(QueueStep::Next),
            QueueEvent::Refused => Ok(QueueStep::PutBack),
            _ => Ok(QueueStep::Return(0)),
        }
    }

    /// Drain the tx queue, as [`Self::process_rx`] does with the rx queue, whatever is pending for
    /// the guest
    pub fn process_tx(&self, event_idx: bool, event: DrainEvent) -> (r: DrainStep)
        ensures
            r == tx_drain_step(event_idx, event),
    {
        if event_idx {
            match event {
                DrainEvent::GoneThrough => DrainStep::Enable,
                DrainEvent::Enabled(false) => DrainStep::Finish,
                _ => DrainStep::DisableAndGoThrough,
            }
        } else {
            match event {
                DrainEvent::Start => DrainStep::GoThrough,
                _ => DrainStep::Finish,
            }
        }
    }

    /// Have a connection serve `op`
    fn enqueue_rx(&mut self, key: ConnMapKey, op: RxOps)
        requires
            old(self).wf(),
            old(self).thread_backend.has_conn(key),
        ensures
            final(self).wf(),
            old(self).thread_backend.linked() ==> final(self).thread_backend.linked(),
            *final(self) == (VhostUserVsockThread {
                thread_backend: final(self).thread_backend,
                ..*old(self)
            }),
            ({
                let before = old(self).thread_backend;
                let after = final(self).thread_backend;
                &&& after.conn_map@ == before.conn_map@.insert(
                    key.id(),
                    VsockConnection {
                        rx_queue: before.conn(key).rx_queue.with(op),
                        ..before.conn(key)
                    },
                )
                &&& after.backend_rxq@ == before.backend_rxq@.push(key)
                &&& after == (VsockThreadBackend {
                    conn_map: after.conn_map,
                    backend_rxq: after.backend_rxq,
                    ..before
                })
            }),
    {
        match self.thread_backend.conn_map.remove(&key.code()) {
            Some(mut conn) => {
                conn.rx_queue.enqueue(op);
                self.thread_backend.conn_map.insert(key.code(), conn);
                assert(self.thread_backend.conn_map@ =~= old(
                    self,
                ).thread_backend.conn_map@.insert(key.id(), conn));
            },
            None => {},
        }
        self.thread_backend.backend_rxq.push_back(key);
    }
}

/// While every stream that is listened to leads to its connection, no event comes unexpected on a
/// stream that is listened to or has been accepted.
pub proof fn law_known_streams_are_expected(t: VhostUserVsockThread, fd: i32, evset: Readiness)
    requires
        t.thread_backend.linked(),
        t.thread_backend.listener_map@.contains_key(fd) || t.thread_backend.stream_map@.contains(
            fd,
        ),
    ensures
        t.expects(fd, evset),
{
}

} // verus!
