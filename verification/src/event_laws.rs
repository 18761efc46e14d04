//! What a worker thread promises about the events on its streams and queues.

use vstd::prelude::*;

use crate::config;
use crate::config::ConnMapKey;
use crate::conn_laws;
use crate::error::Error;
use crate::packet::HdrField;
use crate::packet::PacketView;
use crate::routing_laws;
use crate::rxops::RxOps;
use crate::rxqueue;
use crate::thread;
use crate::thread::DrainEvent;
use crate::thread::DrainStep;
use crate::thread::EventAction;
use crate::thread::QueueEvent;
use crate::thread::QueueStep;
use crate::thread::Readiness;
use crate::thread::VhostUserVsockThread;
use crate::thread::WaitOutcome;
use crate::thread::WaitStep;
use crate::thread_backend;
use crate::thread_backend::PollAction;
use crate::thread_backend::RxRoute;
use crate::thread_backend::VsockThreadBackend;
use crate::txbuf;
use crate::vsock_conn::RecvStep;
use crate::vsock_conn::VsockConnection;

verus! {

/// The two are the same thread, apart from its connections and ports.
pub open spec fn same_thread(before: VhostUserVsockThread, after: VhostUserVsockThread) -> bool {
    &&& after.event_idx == before.event_idx
    &&& after.host_sock == before.host_sock
    &&& after.epoll_fd == before.epoll_fd
    &&& after.guest_cid == before.guest_cid
}

/// Whatever happens on the host socket, an application is accepted on it, and nothing changes.
pub proof fn law_host_socket_accepts(
    before: VhostUserVsockThread,
    evset: Readiness,
    after: VhostUserVsockThread,
    r: EventAction,
)
    requires
        thread::event_taken(before, before.host_sock, evset, after, r),
    ensures
        r is Accept,
        after == before,
{
}

/// A stream without a connection is asked for its port once it can be read, and is no longer among
/// those that have not said it; nothing else changes. Before, it is let be.
pub proof fn law_new_stream_is_asked(
    before: VhostUserVsockThread,
    fd: i32,
    evset: Readiness,
    after: VhostUserVsockThread,
    r: EventAction,
)
    requires
        thread::event_taken(before, fd, evset, after, r),
        fd != before.host_sock,
        !before.thread_backend.listener_map@.contains_key(fd),
    ensures
        r is ReadPort <==> evset is Readable,
        r is Ignore <==> !(evset is Readable),
        r is Ignore ==> after == before,
        r is ReadPort ==> after.thread_backend.stream_map@ == before.thread_backend.stream_map@.remove(
            fd,
        ),
        after.thread_backend.conn_map@ == before.thread_backend.conn_map@,
        after.thread_backend.listener_map@ == before.thread_backend.listener_map@,
        after.thread_backend.backend_rxq@ == before.thread_backend.backend_rxq@,
        after.local_port == before.local_port,
        same_thread(before, after),
{
}

/// A stream that can be written and not read has what waits for it flushed, whether or not its
/// connection is established, and nothing changes.
pub proof fn law_writable_stream_is_flushed(
    before: VhostUserVsockThread,
    fd: i32,
    after: VhostUserVsockThread,
    r: EventAction,
)
    requires
        thread::event_taken(before, fd, Readiness::Writable, after, r),
        fd != before.host_sock,
        before.thread_backend.listener_map@.contains_key(fd),
    ensures
        r == EventAction::Flush(before.thread_backend.listener_map@[fd]),
        after == before,
{
}

/// Data on the stream of an established connection makes the connection read it for the guest,
/// after what is queued already; what was pending stays so, and the stream is not polled meanwhile.
/// No other connection changes.
pub proof fn law_stream_data_is_queued(
    before: VhostUserVsockThread,
    fd: i32,
    evset: Readiness,
    after: VhostUserVsockThread,
    r: EventAction,
)
    requires
        thread::event_taken(before, fd, evset, after, r),
        fd != before.host_sock,
        !(evset is Writable),
        before.thread_backend.listener_map@.contains_key(fd),
        before.thread_backend.has_conn(before.thread_backend.listener_map@[fd]),
        before.thread_backend.conn(before.thread_backend.listener_map@[fd]).connect,
    ensures
        r is Unregister,
        ({
            let b = before.thread_backend;
            let a = after.thread_backend;
            let key = b.listener_map@[fd];
            &&& a.conn_map@.contains_key(key.id())
            &&& a.conn_map@[key.id()].rx_queue@ == b.conn_map@[key.id()].rx_queue@.insert(RxOps::Rw)
            &&& a.conn_map@[key.id()] == (VsockConnection {
                rx_queue: a.conn_map@[key.id()].rx_queue,
                ..b.conn_map@[key.id()]
            })
            &&& a.backend_rxq@ == b.backend_rxq@.push(key)
            &&& a.listener_map@ == b.listener_map@
            &&& routing_laws::others_unchanged(b, a, key.id())
        }),
        after.local_port == before.local_port,
        same_thread(before, after),
{
    let key = before.thread_backend.listener_map@[fd];
    rxqueue::law_queue_is_set(before.thread_backend.conn(key).rx_queue, RxOps::Rw);
}

/// Data on the stream of a connection that is not established yet is left for later.
pub proof fn law_early_stream_data_is_left(
    before: VhostUserVsockThread,
    fd: i32,
    evset: Readiness,
    after: VhostUserVsockThread,
    r: EventAction,
)
    requires
        thread::event_taken(before, fd, evset, after, r),
        fd != before.host_sock,
        !(evset is Writable),
        before.thread_backend.listener_map@.contains_key(fd),
        !before.thread_backend.conn(before.thread_backend.listener_map@[fd]).connect,
    ensures
        r is Ignore,
        after == before,
{
}

/// An accepted stream is polled for reading, and is among those that have not said which port they
/// want, as are those that were; nothing else changes.
pub proof fn law_accepted_stream_is_known(
    before: VhostUserVsockThread,
    stream_fd: i32,
    after: VhostUserVsockThread,
    poll: PollAction,
    fd: i32,
)
    requires
        thread::accepted(before, stream_fd, after, poll),
    ensures
        poll == PollAction::RegisterRead(stream_fd),
        after.thread_backend.stream_map@.contains(fd) <==> fd == stream_fd
            || before.thread_backend.stream_map@.contains(fd),
        after.thread_backend.conn_map@ == before.thread_backend.conn_map@,
        after.thread_backend.listener_map@ == before.thread_backend.listener_map@,
        after.thread_backend.backend_rxq@ == before.thread_backend.backend_rxq@,
        after.local_port == before.local_port,
        same_thread(before, after),
{
}

/// An event on a stream that was neither accepted nor belongs to a connection is not expected if it
/// is for reading, nor is any on one that leads to a connection that is gone. Others are.
pub proof fn law_unknown_streams_are_unexpected(
    t: VhostUserVsockThread,
    fd: i32,
    evset: Readiness,
)
    ensures
        fd == t.host_sock ==> t.expects(fd, evset),
        fd != t.host_sock && !t.thread_backend.listener_map@.contains_key(fd) ==> (t.expects(fd, evset) <==> !(
        evset is Readable) || t.thread_backend.stream_map@.contains(fd)),
        fd != t.host_sock && t.thread_backend.listener_map@.contains_key(fd) ==> (t.expects(fd, evset)
            <==> t.thread_backend.conn_map@.contains_key(
            t.thread_backend.listener_map@[fd].id(),
        )),
{
}

/// The connection that is opened for a stream goes to the wanted port, from the port after the last
/// that was given out, which no other connection is on. It is queued, after all others, to ask the
/// guest; the stream leads to it and is now polled for writing too, and no other connection changes.
pub proof fn law_stream_gets_its_connection(
    before: VhostUserVsockThread,
    fd: i32,
    peer_port: u32,
    after: VhostUserVsockThread,
    poll: PollAction,
    key: ConnMapKey,
)
    requires
        before.wf(),
        before.ports_given(),
        before.local_port < u32::MAX,
        thread::opened(before, fd, peer_port, after, poll),
        key.local_port == before.local_port + 1,
        key.peer_port == peer_port,
    ensures
        poll == PollAction::ModifyReadWrite(fd),
        after.local_port == before.local_port + 1,
        same_thread(before, after),
        ({
            let b = before.thread_backend;
            let a = after.thread_backend;
            let c = a.conn_map@[key.id()];
            &&& a.conn_map@.contains_key(key.id())
            &&& forall|id: u64| #[trigger]
                b.conn_map@.contains_key(id) ==> b.conn_map@[id].local_port != c.local_port
            &&& c.stream_fd == fd
            &&& c.local_port == key.local_port
            &&& c.peer_port == peer_port
            &&& c.local_cid == 2
            &&& c.guest_cid == before.guest_cid
            &&& c.epoll_fd == before.epoll_fd
            &&& !c.connect
            &&& c.rx_queue@ == set![RxOps::Request]
            &&& c.credit() == 0
            &&& c.fwd_cnt == 0
            &&& c.last_fwd_cnt == 0
            &&& c.rx_cnt == 0
            &&& c.peer_fwd_cnt == 0
            &&& c.tx_buf@.len() == 0
            &&& a.backend_rxq@ == b.backend_rxq@.push(key)
            &&& a.listener_map@ == b.listener_map@.insert(fd, key)
            &&& routing_laws::others_unchanged(b, a, key.id())
        }),
{
    assert(!before.thread_backend.has_conn(key)) by {
        if before.thread_backend.conn_map@.contains_key(key.id()) {
            let c = before.thread_backend.conn_map@[key.id()];
            config::law_key_id(
                ConnMapKey { local_port: c.local_port, peer_port: c.peer_port },
                key,
            );
        }
    }
    assert(after.thread_backend.conn(key).rx_queue@ =~= set![RxOps::Request]);
}

/// The guest is asked for a stream's connection, from the connection's port to the wanted one: where
/// nobody else is queued, the next packet is the request.
pub proof fn law_guest_is_asked_for_the_connection(
    before: VhostUserVsockThread,
    fd: i32,
    peer_port: u32,
    opened: VhostUserVsockThread,
    poll: PollAction,
    p: PacketView,
    after: VsockThreadBackend,
    q: PacketView,
    r: Result<RxRoute, Error>,
)
    requires
        before.local_port < u32::MAX,
        before.thread_backend.backend_rxq@.len() == 0,
        thread::opened(before, fd, peer_port, opened, poll),
        thread_backend::served(opened.thread_backend, p, after, q, r),
    ensures
        r matches Ok(RxRoute::Conn(key, RecvStep::Done)) && key.local_port == before.local_port + 1
            && key.peer_port == peer_port,
        q.field(HdrField::Op) == 1,
        q.field(HdrField::Type) == 1,
        q.field(HdrField::SrcCid) == 2,
        q.field(HdrField::DstCid) == before.guest_cid,
        q.field(HdrField::SrcPort) == before.local_port + 1,
        q.field(HdrField::DstPort) == peer_port,
        q.field(HdrField::BufAlloc) == 65536,
        after.backend_rxq@.len() == 0,
{
    let key = ConnMapKey { local_port: (before.local_port + 1) as u32, peer_port };
    let b = opened.thread_backend;
    let c = b.conn(key);
    assert(b.backend_rxq@[0] == key);
    assert(c.rx_queue@.contains(RxOps::Request));
    routing_laws::law_served_in_order(b, p, after, q, r, 0);
    routing_laws::law_pending_connection_is_served(b, p, after, q, r, 0);
    conn_laws::law_request_comes_first(c, p);
    conn_laws::law_receiving_serves_one(c, p);
}

/// What was flushed to a stream counts as forwarded, and the guest is to be told, after what is
/// queued already; what was pending stays so. No other connection changes.
pub proof fn law_flushed_bytes_are_counted(
    before: VhostUserVsockThread,
    key: ConnMapKey,
    cnt: nat,
    after: VhostUserVsockThread,
)
    requires
        cnt <= u32::MAX,
        before.thread_backend.has_conn(key),
        thread::flush_counted(before, key, cnt, after),
    ensures
        ({
            let b = before.thread_backend;
            let a = after.thread_backend;
            let was = b.conn_map@[key.id()];
            let is = a.conn_map@[key.id()];
            &&& a.conn_map@.contains_key(key.id())
            &&& txbuf::counter_distance(is.fwd_cnt, was.fwd_cnt) == cnt
            &&& is.rx_queue@ == was.rx_queue@.insert(RxOps::CreditUpdate)
            &&& is == (VsockConnection { fwd_cnt: is.fwd_cnt, rx_queue: is.rx_queue, ..was })
            &&& a.backend_rxq@ == b.backend_rxq@.push(key)
            &&& a.listener_map@ == b.listener_map@
            &&& routing_laws::others_unchanged(b, a, key.id())
        }),
        after.local_port == before.local_port,
        same_thread(before, after),
{
    let was = before.thread_backend.conn(key);
    txbuf::lemma_counter_distance(was.fwd_cnt, was.fwd_cnt);
    txbuf::lemma_counter_advances(was.fwd_cnt, was.fwd_cnt, cnt);
    rxqueue::law_queue_is_set(was.rx_queue, RxOps::CreditUpdate);
}

/// All events that a wait gave are handled; an interrupted wait is made again, and only a failed one
/// is given up.
pub proof fn law_waits(outcome: WaitOutcome)
    ensures
        outcome matches WaitOutcome::Ready(n) ==> thread::wait_step(outcome) == WaitStep::Handle(n),
        thread::wait_step(outcome) is Retry <==> outcome is Interrupted,
        thread::wait_step(outcome) is GiveUp <==> outcome is Failed,
{
}

/// No tx chain whose packet was taken is lost: whatever the packet's length, the chain goes back to
/// the guest, unused. One whose packet was refused stays available, and only one without a packet is
/// passed over.
pub proof fn law_tx_chain_answered(len: u32)
    ensures
        thread::tx_queue_step(QueueEvent::Handled(len)) == Ok::<QueueStep, Error>(
            QueueStep::Return(0),
        ),
        thread::tx_queue_step(QueueEvent::Refused) == Ok::<QueueStep, Error>(QueueStep::PutBack),
        thread::tx_queue_step(QueueEvent::Malformed) == Ok::<QueueStep, Error>(QueueStep::Next),
{
}

/// The tx queue is gone through to its end: a step ends it only where no chain is left, the packet
/// was refused, or the queue cannot be gone through at all.
pub proof fn law_tx_queue_gone_through(event: QueueEvent)
    ensures
        (thread::tx_queue_step(event) matches Ok(QueueStep::Finish)) <==> event is Exhausted,
        (thread::tx_queue_step(event) matches Ok(QueueStep::PutBack)) <==> event is Refused,
        (thread::tx_queue_step(event) matches Ok(QueueStep::Next)) <==> event
            == QueueEvent::Start(true) || event is Malformed,
        !(thread::tx_queue_step(event) matches Ok(QueueStep::ReturnLast(_))),
        thread::tx_queue_step(event) is Err <==> event == QueueEvent::Start(false)
            || event is IterateFailed,
        event == QueueEvent::Start(false) ==> thread::tx_queue_step(event) == Err::<
            QueueStep,
            Error,
        >(Error::NoMemoryConfigured),
        event is IterateFailed ==> thread::tx_queue_step(event) == Err::<QueueStep, Error>(
            Error::IterateQueue,
        ),
{
}

/// An rx chain goes back to the guest with the size of its packet: the header's 44 bytes and the
/// data, around modulo 2^32; one that cannot hold a packet goes back with none.
pub proof fn law_rx_used_length(pending: bool, len: u32)
    ensures
        ({
            let used = used_length(thread::rx_queue_step(pending, QueueEvent::Handled(len)));
            &&& len <= u32::MAX - 44 ==> used == Some((len + 44) as u32)
            &&& len > u32::MAX - 44 ==> used == Some((len + 44 - 0x1_0000_0000) as u32)
        }),
        used_length(thread::rx_queue_step(pending, QueueEvent::Malformed)) == Some(0u32),
{
}

/// The used length with which a step returns a chain, if it returns one.
pub open spec fn used_length(step: Result<QueueStep, Error>) -> Option<u32> {
    match step {
        Ok(QueueStep::Return(used)) => Some(used),
        Ok(QueueStep::ReturnLast(used)) => Some(used),
        _ => None,
    }
}

/// The rx queue is gone through for as long as anything is pending for the guest: a chain that goes
/// back is the last exactly if nothing is, whatever it holds.
pub proof fn law_rx_queue_gone_through(pending: bool, event: QueueEvent)
    ensures
        event is Handled || event is Malformed ==> ((thread::rx_queue_step(pending, event) matches Ok(
            QueueStep::ReturnLast(_),
        )) <==> !pending),
        event is Handled || event is Malformed ==> ((thread::rx_queue_step(pending, event) matches Ok(
            QueueStep::Return(_),
        )) <==> pending),
        (thread::rx_queue_step(pending, event) matches Ok(QueueStep::Finish)) <==> event is Exhausted,
        (thread::rx_queue_step(pending, event) matches Ok(QueueStep::PutBack)) <==> event is Refused,
        (thread::rx_queue_step(pending, event) matches Ok(QueueStep::Next)) <==> event
            == QueueEvent::Start(true),
        thread::rx_queue_step(pending, event) is Err <==> event == QueueEvent::Start(false)
            || event is IterateFailed,
        event == QueueEvent::Start(false) ==> thread::rx_queue_step(pending, event) == Err::<
            QueueStep,
            Error,
        >(Error::NoMemoryConfigured),
        event is IterateFailed ==> thread::rx_queue_step(pending, event) == Err::<
            QueueStep,
            Error,
        >(Error::IterateQueue),
{
}

/// A queue counts as used once any chain was available on it, whatever came of the chain.
pub proof fn law_chain_counts_as_use(used: bool, len: u32, has_mem: bool)
    ensures
        thread::used_after(used, QueueEvent::Handled(len)),
        thread::used_after(used, QueueEvent::Refused),
        thread::used_after(used, QueueEvent::Malformed),
        thread::used_after(used, QueueEvent::Exhausted) == used,
        thread::used_after(used, QueueEvent::IterateFailed) == used,
        thread::used_after(used, QueueEvent::Start(has_mem)) == used,
{
}

/// Without EVENT_IDX a queue is gone through once, whether or not that is worth it.
pub proof fn law_drained_once(worth: bool, found: bool)
    ensures
        thread::drain_step(false, worth, DrainEvent::Start) is GoThrough,
        thread::drain_step(false, worth, DrainEvent::GoneThrough) is Finish,
        thread::drain_step(false, worth, DrainEvent::Enabled(found)) is Finish,
{
}

/// With EVENT_IDX a queue is gone through only with notifications disabled; they are enabled after
/// each time, whether or not the queue is still worth going through, and the queue is gone through
/// again exactly if new entries were found that are worth it.
pub proof fn law_drained_until_empty(worth: bool, found: bool)
    ensures
        thread::drain_step(true, worth, DrainEvent::Start) is DisableAndGoThrough <==> worth,
        thread::drain_step(true, worth, DrainEvent::Start) is Finish <==> !worth,
        thread::drain_step(true, worth, DrainEvent::GoneThrough) is Enable,
        thread::drain_step(true, worth, DrainEvent::Enabled(found)) is DisableAndGoThrough
            <==> found && worth,
        thread::drain_step(true, worth, DrainEvent::Enabled(found)) is Finish <==> !(found && worth),
{
}

/// What is worth going through the rx queue is a connection that is queued: with EVENT_IDX the queue is
/// left alone while there is none, and a chain that goes back is the last once there is none.
pub proof fn law_queued_connections_keep_rx_going(
    t: VhostUserVsockThread,
    event_idx: bool,
    len: u32,
)
    ensures
        ({
            let queue = t.thread_backend.backend_rxq@;
            let start = thread::rx_drain_step(t, event_idx, DrainEvent::Start);
            let again = thread::rx_drain_step(t, event_idx, DrainEvent::Enabled(true));
            let step = thread::rx_step(t, QueueEvent::Handled(len));
            &&& !event_idx ==> start is GoThrough
            &&& event_idx && queue.len() > 0 ==> start is DisableAndGoThrough && again
                is DisableAndGoThrough
            &&& event_idx && queue.len() == 0 ==> start is Finish && again is Finish
            &&& queue.len() > 0 <==> (step matches Ok(QueueStep::Return(_)))
            &&& queue.len() == 0 <==> (step matches Ok(QueueStep::ReturnLast(_)))
            &&& thread::rx_step(t, QueueEvent::Refused) == Ok::<QueueStep, Error>(
                QueueStep::PutBack,
            )
        }),
{
}

/// The tx queue is always worth going through.
pub proof fn law_tx_queue_is_always_drained(event_idx: bool)
    ensures
        !event_idx ==> thread::tx_drain_step(event_idx, DrainEvent::Start) is GoThrough,
        !event_idx ==> thread::tx_drain_step(event_idx, DrainEvent::GoneThrough) is Finish,
        event_idx ==> thread::tx_drain_step(event_idx, DrainEvent::Start) is DisableAndGoThrough,
        event_idx ==> thread::tx_drain_step(event_idx, DrainEvent::GoneThrough) is Enable,
        event_idx ==> thread::tx_drain_step(event_idx, DrainEvent::Enabled(true))
            is DisableAndGoThrough,
        event_idx ==> thread::tx_drain_step(event_idx, DrainEvent::Enabled(false)) is Finish,
{
}

/// The guest goes without a notification only if it uses EVENT_IDX and is known not to want one.
pub proof fn law_guest_is_notified(event_idx: bool, wanted: Option<bool>)
    ensures
        !event_idx ==> thread::signals(event_idx, wanted),
        wanted is None ==> thread::signals(event_idx, wanted),
        wanted == Some(true) ==> thread::signals(event_idx, wanted),
        event_idx && wanted == Some(false) ==> !thread::signals(event_idx, wanted),
{
}

} // verus!
