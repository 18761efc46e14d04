use vhost_user_vsock::config::ConnMapKey;
use vhost_user_vsock::error::Error;
use vhost_user_vsock::packet::VsockPacket;
use vhost_user_vsock::rxops::RxOps;
use vhost_user_vsock::thread::needs_signal;
use vhost_user_vsock::thread::DrainEvent;
use vhost_user_vsock::thread::DrainStep;
use vhost_user_vsock::thread::EventAction;
use vhost_user_vsock::thread::QueueEvent;
use vhost_user_vsock::thread::QueueStep;
use vhost_user_vsock::thread::Readiness;
use vhost_user_vsock::thread::VhostUserVsockThread;
use vhost_user_vsock::thread::WaitOutcome;
use vhost_user_vsock::thread::WaitStep;
use vhost_user_vsock::thread_backend::PollAction;
use vhost_user_vsock::thread_backend::RxRoute;
use vhost_user_vsock::thread_backend::TxRoute;
use vhost_user_vsock::vsock_conn::RecvStep;
use vhost_user_vsock::vsock_conn::SendStep;

const HOST_SOCK: i32 = 3;
const EPOLL: i32 = 4;

fn thread() -> VhostUserVsockThread {
    VhostUserVsockThread::new("/tmp/vm4.vsock".to_string(), 42, HOST_SOCK, EPOLL)
}

/// A thread with one stream, 10, that has asked for port 1234.
fn with_stream() -> VhostUserVsockThread {
    let mut t = thread();
    assert_eq!(t.add_stream_listener(10), PollAction::RegisterRead(10));
    assert_eq!(t.handle_event(10, Readiness::Readable), EventAction::ReadPort);
    assert_eq!(t.connect_stream(10, 1234), PollAction::ModifyReadWrite(10));
    t
}

fn packet() -> VsockPacket {
    VsockPacket::new([0; 44], 0, Some(vec![0; 64]), 0)
}

/// A packet from port 1234 of the guest to port 1 of the host.
fn guest_packet(op: u16) -> VsockPacket {
    let mut pkt = VsockPacket::new([0; 44], 0, None, 0);
    pkt.set_src_cid(42)
        .set_dst_cid(2)
        .set_src_port(1234)
        .set_dst_port(1)
        .set_type(1)
        .set_op(op)
        .set_buf_alloc(500);
    pkt
}

#[test]
fn events_on_unconnected_streams() {
    let mut t = thread();
    assert_eq!(t.handle_event(HOST_SOCK, Readiness::Readable), EventAction::Accept);
    assert_eq!(t.handle_event(HOST_SOCK, Readiness::Other), EventAction::Accept);
    assert!(!t.is_expected(10, Readiness::Readable));
    assert!(t.is_expected(10, Readiness::Writable));
    t.add_stream_listener(10);
    assert!(t.is_expected(10, Readiness::Readable));
    assert_eq!(t.handle_event(10, Readiness::Writable), EventAction::Ignore);
    assert_eq!(t.handle_event(10, Readiness::Other), EventAction::Ignore);
    assert!(t.thread_backend.stream_map.contains(&10));
    assert_eq!(t.handle_event(10, Readiness::Readable), EventAction::ReadPort);
    assert!(!t.thread_backend.stream_map.contains(&10));
}

#[test]
fn a_stream_is_connected_on_a_port_of_its_own() {
    let mut t = with_stream();
    let key = ConnMapKey::new(1, 1234);
    assert_eq!(t.local_port, 1);
    assert_eq!(t.thread_backend.listener_map.get(&10), Some(&key));
    assert!(t.thread_backend.pending_rx());
    assert_eq!(t.thread_backend.backend_rxq.front(), Some(&key));
    let c = t.thread_backend.conn_map.get(&key.code()).unwrap();
    assert_eq!((c.local_cid, c.local_port), (2, 1));
    assert_eq!((c.guest_cid, c.peer_port), (42, 1234));
    assert_eq!((c.stream_fd, c.epoll_fd), (10, EPOLL));
    assert_eq!(c.rx_queue.queue, 1);
    assert!(!c.connect);

    t.connect_stream(11, 1234);
    assert_eq!(t.local_port, 2);
    assert_eq!(t.thread_backend.listener_map.get(&11), Some(&ConnMapKey::new(2, 1234)));
    assert_eq!(t.thread_backend.conn_map.len(), 2);
    assert_eq!(t.allocate_local_port(), 3);
}

#[test]
fn events_on_connected_streams() {
    let mut t = with_stream();
    let key = ConnMapKey::new(1, 1234);
    assert_eq!(t.handle_event(10, Readiness::Writable), EventAction::Flush(key));
    assert_eq!(t.handle_event(10, Readiness::Readable), EventAction::Ignore);
    t.thread_backend.conn_map.get_mut(&key.code()).unwrap().connect = true;
    assert_eq!(t.handle_event(10, Readiness::Readable), EventAction::Unregister);
    let c = t.thread_backend.conn_map.get(&key.code()).unwrap();
    assert!(c.rx_queue.contains(RxOps::Rw.bitmask()));
    assert_eq!(t.thread_backend.backend_rxq.len(), 2);
    assert_eq!(t.handle_event(10, Readiness::Other), EventAction::Unregister);
    t.thread_backend.conn_map.remove(&key.code());
    assert!(!t.is_expected(10, Readiness::Readable));
}

#[test]
fn flushed_bytes_are_counted_and_reported() {
    let mut t = with_stream();
    let key = ConnMapKey::new(1, 1234);
    t.thread_backend.conn_map.get_mut(&key.code()).unwrap().fwd_cnt = u32::MAX - 1;
    t.flushed(key, 5);
    let c = t.thread_backend.conn_map.get(&key.code()).unwrap();
    assert_eq!(c.fwd_cnt, 3);
    assert!(c.rx_queue.contains(RxOps::CreditUpdate.bitmask()));
    assert_eq!(t.thread_backend.backend_rxq.len(), 2);
}

#[test]
fn waiting_for_events() {
    let t = thread();
    assert_eq!(t.process_backend_evt(WaitOutcome::Ready(7)), WaitStep::Handle(7));
    assert_eq!(t.process_backend_evt(WaitOutcome::Interrupted), WaitStep::Retry);
    assert_eq!(t.process_backend_evt(WaitOutcome::Failed), WaitStep::GiveUp);
}

#[test]
fn going_through_the_rx_queue() {
    let t = with_stream();
    let mut used = false;
    assert!(matches!(
        t.process_rx_queue(&mut used, QueueEvent::Start(false)),
        Err(Error::NoMemoryConfigured)
    ));
    assert_eq!(t.process_rx_queue(&mut used, QueueEvent::Start(true)).unwrap(), QueueStep::Next);
    assert!(matches!(
        t.process_rx_queue(&mut used, QueueEvent::IterateFailed),
        Err(Error::IterateQueue)
    ));
    assert_eq!(t.process_rx_queue(&mut used, QueueEvent::Exhausted).unwrap(), QueueStep::Finish);
    assert!(!used);
    assert_eq!(
        t.process_rx_queue(&mut used, QueueEvent::Handled(6)).unwrap(),
        QueueStep::Return(50)
    );
    assert!(used);
    assert_eq!(
        t.process_rx_queue(&mut used, QueueEvent::Malformed).unwrap(),
        QueueStep::Return(0)
    );
    assert_eq!(t.process_rx_queue(&mut used, QueueEvent::Refused).unwrap(), QueueStep::PutBack);

    let idle = thread();
    let mut used = false;
    assert_eq!(
        idle.process_rx_queue(&mut used, QueueEvent::Handled(u32::MAX)).unwrap(),
        QueueStep::ReturnLast(43)
    );
    assert_eq!(
        idle.process_rx_queue(&mut used, QueueEvent::Malformed).unwrap(),
        QueueStep::ReturnLast(0)
    );
}

#[test]
fn going_through_the_tx_queue() {
    let t = thread();
    let mut used = false;
    assert!(matches!(
        t.process_tx_queue(&mut used, QueueEvent::Start(false)),
        Err(Error::NoMemoryConfigured)
    ));
    assert_eq!(t.process_tx_queue(&mut used, QueueEvent::Start(true)).unwrap(), QueueStep::Next);
    assert!(matches!(
        t.process_tx_queue(&mut used, QueueEvent::IterateFailed),
        Err(Error::IterateQueue)
    ));
    assert_eq!(t.process_tx_queue(&mut used, QueueEvent::Exhausted).unwrap(), QueueStep::Finish);
    assert!(!used);
    assert_eq!(t.process_tx_queue(&mut used, QueueEvent::Malformed).unwrap(), QueueStep::Next);
    assert!(used);
    assert_eq!(t.process_tx_queue(&mut used, QueueEvent::Refused).unwrap(), QueueStep::PutBack);
    assert_eq!(
        t.process_tx_queue(&mut used, QueueEvent::Handled(9)).unwrap(),
        QueueStep::Return(0)
    );
}

#[test]
fn draining_the_queues() {
    let idle = thread();
    let busy = with_stream();
    assert_eq!(busy.process_rx(true, DrainEvent::Start), DrainStep::DisableAndGoThrough);
    assert_eq!(busy.process_rx(true, DrainEvent::GoneThrough), DrainStep::Enable);
    assert_eq!(busy.process_rx(true, DrainEvent::Enabled(true)), DrainStep::DisableAndGoThrough);
    assert_eq!(busy.process_rx(true, DrainEvent::Enabled(false)), DrainStep::Finish);
    assert_eq!(idle.process_rx(true, DrainEvent::Start), DrainStep::Finish);
    assert_eq!(idle.process_rx(true, DrainEvent::GoneThrough), DrainStep::Enable);
    assert_eq!(idle.process_rx(true, DrainEvent::Enabled(true)), DrainStep::Finish);
    assert_eq!(idle.process_rx(false, DrainEvent::Start), DrainStep::GoThrough);
    assert_eq!(idle.process_rx(false, DrainEvent::GoneThrough), DrainStep::Finish);

    assert_eq!(idle.process_tx(true, DrainEvent::Start), DrainStep::DisableAndGoThrough);
    assert_eq!(idle.process_tx(true, DrainEvent::GoneThrough), DrainStep::Enable);
    assert_eq!(idle.process_tx(true, DrainEvent::Enabled(true)), DrainStep::DisableAndGoThrough);
    assert_eq!(idle.process_tx(true, DrainEvent::Enabled(false)), DrainStep::Finish);
    assert_eq!(idle.process_tx(false, DrainEvent::Start), DrainStep::GoThrough);
    assert_eq!(idle.process_tx(false, DrainEvent::GoneThrough), DrainStep::Finish);
}

#[test]
fn notifying_the_guest() {
    assert!(needs_signal(false, None));
    assert!(needs_signal(false, Some(false)));
    assert!(needs_signal(true, None));
    assert!(needs_signal(true, Some(true)));
    assert!(!needs_signal(true, Some(false)));
}

#[test]
fn a_host_connection_from_request_to_reset() {
    let mut t = with_stream();
    let key = ConnMapKey::new(1, 1234);
    let mut pkt = packet();
    assert_eq!(
        t.thread_backend.recv_pkt(&mut pkt).unwrap(),
        RxRoute::Conn(key, RecvStep::Done)
    );
    assert_eq!(pkt.op(), 1);
    assert_eq!((pkt.src_cid(), pkt.src_port()), (2, 1));
    assert_eq!((pkt.dst_cid(), pkt.dst_port()), (42, 1234));
    assert!(matches!(t.thread_backend.recv_pkt(&mut pkt), Err(Error::NoRequestRx)));

    // The answer finds the connection, with the ports exchanged.
    match t.thread_backend.send_pkt(&guest_packet(2)) {
        TxRoute::Conn(k, SendStep::WriteAll(bytes)) => {
            assert_eq!(k, key);
            assert_eq!(bytes, b"OK 1234\n");
        }
        _ => panic!("the application is to be told"),
    }
    t.thread_backend.requeue(key);
    assert!(!t.thread_backend.pending_rx());

    // A full shutdown is answered with a reset, and the connection is gone.
    let mut shutdown = guest_packet(4);
    shutdown.set_flags(3);
    assert!(matches!(
        t.thread_backend.send_pkt(&shutdown),
        TxRoute::Conn(_, SendStep::Done)
    ));
    t.thread_backend.requeue(key);
    assert_eq!(t.thread_backend.recv_pkt(&mut pkt).unwrap(), RxRoute::Close(10));
    assert_eq!(pkt.op(), 3);
    assert_eq!((pkt.src_port(), pkt.dst_port()), (1, 1234));
    assert!(t.thread_backend.conn_map.is_empty());
    assert!(t.thread_backend.listener_map.is_empty());
}

#[test]
fn a_guest_connection() {
    let mut t = thread();
    let key = ConnMapKey::new(1, 1234);
    let request = guest_packet(1);
    match t.thread_backend.send_pkt(&request) {
        TxRoute::Connect(k) => assert_eq!(k, key),
        _ => panic!("a new connection is asked for"),
    }
    assert_eq!(t.thread_backend.port_path(1234), b"/tmp/vm4.vsock_1234");
    assert_eq!(
        t.thread_backend.add_guest_conn(&request, 20),
        PollAction::RegisterReadWrite(20)
    );
    assert_eq!(t.thread_backend.listener_map.get(&20), Some(&key));
    let mut pkt = packet();
    assert_eq!(
        t.thread_backend.recv_pkt(&mut pkt).unwrap(),
        RxRoute::Conn(key, RecvStep::Done)
    );
    assert_eq!(pkt.op(), 2);
    let c = t.thread_backend.conn_map.get(&key.code()).unwrap();
    assert!(c.connect);
    assert_eq!(c.peer_buf_alloc, 500);
    assert_eq!((c.local_cid, c.guest_cid), (2, 42));

    match t.thread_backend.send_pkt(&guest_packet(3)) {
        TxRoute::Close(fd) => assert_eq!(fd, 20),
        _ => panic!("a reset ends the connection"),
    }
    assert!(t.thread_backend.conn_map.is_empty());
    assert!(t.thread_backend.listener_map.is_empty());
}

#[test]
fn packets_that_are_dropped() {
    let mut t = with_stream();
    let mut wrong_type = guest_packet(2);
    wrong_type.set_type(2);
    assert!(matches!(t.thread_backend.send_pkt(&wrong_type), TxRoute::Dropped));
    let mut wrong_cid = guest_packet(2);
    wrong_cid.set_dst_cid(7);
    assert!(matches!(t.thread_backend.send_pkt(&wrong_cid), TxRoute::Dropped));
    let mut wrong_port = guest_packet(2);
    wrong_port.set_dst_port(9);
    assert!(matches!(t.thread_backend.send_pkt(&wrong_port), TxRoute::Dropped));
}

#[test]
fn keys_without_a_connection_are_passed_over() {
    let mut t = with_stream();
    t.connect_stream(11, 99);
    assert!(matches!(t.thread_backend.send_pkt(&guest_packet(3)), TxRoute::Close(10)));
    let mut pkt = packet();
    assert_eq!(
        t.thread_backend.recv_pkt(&mut pkt).unwrap(),
        RxRoute::Conn(ConnMapKey::new(2, 99), RecvStep::Done)
    );
    assert_eq!(t.thread_backend.next_key(), None);
}
