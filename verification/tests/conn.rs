use vhost_user_vsock::error::Error;
use vhost_user_vsock::packet::VsockPacket;
use vhost_user_vsock::rxops::RxOps;
use vhost_user_vsock::vsock_conn::RecvStep;
use vhost_user_vsock::vsock_conn::SendStep;
use vhost_user_vsock::vsock_conn::VsockConnection;
use vhost_user_vsock::vsock_conn::WriteOutcome;

fn conn() -> VsockConnection {
    VsockConnection::new_local_init(5, 2, 1024, 3, 4096, 9)
}

fn connected(credit: u32) -> VsockConnection {
    let mut conn = conn();
    conn.connect = true;
    conn.peer_buf_alloc = credit;
    conn
}

fn packet(buf: Option<Vec<u8>>) -> VsockPacket {
    VsockPacket::new([0xff; 44], 0, buf, 0)
}

/// A packet from the guest.
fn guest_packet(op: u16, buf: Option<Vec<u8>>) -> VsockPacket {
    let mut pkt = VsockPacket::new([0; 44], 0, buf, 0);
    pkt.set_op(op).set_buf_alloc(1000).set_fwd_cnt(10);
    let len = match pkt.buf() {
        Some(buf) => buf.len() as u32,
        None => 0,
    };
    pkt.set_len(len);
    pkt
}

#[test]
fn new_connections() {
    let c = conn();
    assert!(!c.connect);
    assert_eq!((c.stream_fd, c.epoll_fd), (5, 9));
    assert_eq!((c.local_cid, c.local_port), (2, 1024));
    assert_eq!((c.guest_cid, c.peer_port), (3, 4096));
    assert!(!c.rx_queue.pending_rx());
    assert_eq!(c.peer_buf_alloc, 0);
    assert!(c.tx_buf.is_empty());

    let mut c = VsockConnection::new_peer_init(5, 2, 1024, 3, 4096, 9, 77);
    assert!(!c.connect);
    assert_eq!(c.rx_queue.peek(), Some(RxOps::Response));
    assert_eq!(c.rx_queue.queue, 4);
    assert_eq!(c.peer_buf_alloc, 77);
    c.set_peer_port(12);
    assert_eq!(c.peer_port, 12);
}

#[test]
fn every_header_field_is_initialized() {
    let mut c = conn();
    c.fwd_cnt = 99;
    let mut pkt = packet(None);
    c.init_pkt(&mut pkt);
    assert_eq!(pkt.src_cid(), 2);
    assert_eq!(pkt.dst_cid(), 3);
    assert_eq!(pkt.src_port(), 1024);
    assert_eq!(pkt.dst_port(), 4096);
    assert_eq!(pkt.len(), 0);
    assert_eq!(pkt.pkt_type(), 1);
    assert_eq!(pkt.op(), 0);
    assert_eq!(pkt.flags(), 0);
    assert_eq!(pkt.buf_alloc(), 65536);
    assert_eq!(pkt.fwd_cnt(), 99);
}

#[test]
fn request_and_response() {
    let mut c = conn();
    c.rx_queue.enqueue(RxOps::Request);
    let mut pkt = packet(None);
    assert_eq!(c.recv_pkt(&mut pkt).unwrap(), RecvStep::Done);
    assert_eq!(pkt.op(), 1);
    assert!(!c.connect);
    assert!(!c.rx_queue.pending_rx());

    c.rx_queue.enqueue(RxOps::Response);
    assert_eq!(c.recv_pkt(&mut pkt).unwrap(), RecvStep::Done);
    assert_eq!(pkt.op(), 2);
    assert!(c.connect);
}

#[test]
fn nothing_to_receive() {
    let mut c = conn();
    let mut pkt = packet(None);
    assert!(matches!(c.recv_pkt(&mut pkt), Err(Error::NoRequestRx)));
    c.rx_queue.enqueue(RxOps::Rst);
    assert!(matches!(c.recv_pkt(&mut pkt), Err(Error::NoRequestRx)));
    assert!(!c.rx_queue.pending_rx());
}

#[test]
fn data_without_a_connection_is_answered_with_a_reset() {
    let mut c = conn();
    c.rx_queue.enqueue(RxOps::Rw);
    let mut pkt = packet(Some(vec![0; 8]));
    assert_eq!(c.recv_pkt(&mut pkt).unwrap(), RecvStep::Done);
    assert_eq!(pkt.op(), 3);
}

#[test]
fn without_credit_more_is_asked_for() {
    let mut c = connected(100);
    c.rx_cnt = 100;
    c.fwd_cnt = 7;
    c.rx_queue.enqueue(RxOps::Rw);
    assert!(c.need_credit_update_from_peer());
    let mut pkt = packet(Some(vec![0; 8]));
    assert_eq!(c.recv_pkt(&mut pkt).unwrap(), RecvStep::Done);
    assert_eq!(pkt.op(), 7);
    assert_eq!(c.last_fwd_cnt, 7);
}

#[test]
fn a_peer_with_less_room_than_what_is_in_flight_gives_no_credit() {
    let mut c = connected(100);
    c.rx_cnt = 60;
    assert_eq!(c.peer_avail_credit(), 40);
    // The guest shrinks its buffer below the 60 bytes on their way.
    let mut update = guest_packet(6, None);
    update.set_buf_alloc(50).set_fwd_cnt(0);
    assert!(matches!(c.send_pkt(&update), SendStep::Rearm));
    assert_eq!(c.peer_avail_credit(), 0);
    assert!(c.need_credit_update_from_peer());
    c.rx_queue.enqueue(RxOps::Rw);
    let mut pkt = packet(Some(vec![0; 8]));
    assert_eq!(c.recv_pkt(&mut pkt).unwrap(), RecvStep::Done);
    assert_eq!(pkt.op(), 7);
    // Credit comes back as the guest forwards what it has got.
    update.set_fwd_cnt(20);
    c.send_pkt(&update);
    assert_eq!(c.peer_avail_credit(), 10);
}

#[test]
fn data_needs_a_buffer() {
    let mut c = connected(100);
    c.rx_queue.enqueue(RxOps::Rw);
    assert!(matches!(c.recv_pkt(&mut packet(None)), Err(Error::PktBufMissing)));
}

#[test]
fn reads_fit_the_buffer_and_the_credit() {
    let mut c = connected(100);
    c.rx_queue.enqueue(RxOps::Rw);
    let mut pkt = packet(Some(vec![0; 8]));
    assert_eq!(c.recv_pkt(&mut pkt).unwrap(), RecvStep::Read(8));
    c.rx_cnt = u32::MAX;
    c.peer_fwd_cnt = u32::MAX - 95;
    c.rx_queue.enqueue(RxOps::Rw);
    assert_eq!(c.peer_avail_credit(), 5);
    assert_eq!(c.recv_pkt(&mut pkt).unwrap(), RecvStep::Read(5));
}

#[test]
fn read_data_reaches_the_packet() {
    let mut c = connected(100);
    c.rx_cnt = u32::MAX - 1;
    c.peer_fwd_cnt = u32::MAX - 1;
    c.fwd_cnt = 3;
    c.rx_queue.enqueue(RxOps::Rw);
    let mut pkt = packet(Some(vec![0; 8]));
    assert_eq!(c.recv_pkt(&mut pkt).unwrap(), RecvStep::Read(8));
    assert_eq!(c.recv_read(&mut pkt, Some(&[1, 2, 3])), RecvStep::Register);
    assert_eq!(pkt.op(), 5);
    assert_eq!(pkt.len(), 3);
    assert_eq!(pkt.data(), &[1, 2, 3]);
    assert_eq!(pkt.buf().unwrap(), &[1, 2, 3, 0, 0, 0, 0, 0]);
    assert_eq!((pkt.src_port(), pkt.dst_port()), (1024, 4096));
    assert_eq!(c.rx_cnt, u32::MAX - 1);
    assert!(c.recv_registered(&pkt, Ok(())).is_ok());
    assert_eq!(c.rx_cnt, 1);
    assert_eq!(c.last_fwd_cnt, 3);
    assert_eq!(c.peer_avail_credit(), 97);
}

#[test]
fn a_failed_registration_is_reported_and_nothing_counted() {
    let mut c = connected(100);
    let mut pkt = packet(Some(vec![0; 8]));
    c.init_pkt(&mut pkt);
    assert_eq!(c.recv_read(&mut pkt, Some(&[1, 2, 3])), RecvStep::Register);
    let error = std::io::Error::new(std::io::ErrorKind::Other, "no room");
    assert!(matches!(c.recv_registered(&pkt, Err(error)), Err(Error::EpollAdd(_))));
    assert_eq!(c.rx_cnt, 0);
}

#[test]
fn a_closed_stream_shuts_the_connection_down() {
    let mut c = connected(100);
    c.fwd_cnt = 3;
    c.rx_queue.enqueue(RxOps::Rw);
    let mut pkt = packet(Some(vec![0; 8]));
    c.recv_pkt(&mut pkt).unwrap();
    assert_eq!(c.recv_read(&mut pkt, Some(&[])), RecvStep::Done);
    assert_eq!(pkt.op(), 4);
    assert_eq!(pkt.flags(), 3);
    assert_eq!(pkt.len(), 0);
    assert_eq!(c.rx_cnt, 0);
    assert_eq!(c.last_fwd_cnt, 3);
}

#[test]
fn a_failed_read_leaves_the_packet_blank() {
    let mut c = connected(100);
    c.rx_queue.enqueue(RxOps::Rw);
    let mut pkt = packet(Some(vec![0; 8]));
    c.recv_pkt(&mut pkt).unwrap();
    assert_eq!(c.recv_read(&mut pkt, None), RecvStep::Done);
    assert_eq!(pkt.op(), 0);
    assert_eq!(pkt.len(), 0);
}

#[test]
fn a_credit_update_is_sent_only_if_nothing_else_is() {
    let mut c = conn();
    c.fwd_cnt = 8;
    c.rx_queue.enqueue(RxOps::CreditUpdate);
    c.rx_queue.enqueue(RxOps::Rst);
    let mut pkt = packet(None);
    assert_eq!(c.recv_pkt(&mut pkt).unwrap(), RecvStep::Done);
    assert_eq!(pkt.op(), 0);
    assert_eq!(c.last_fwd_cnt, 0);

    let mut c = conn();
    c.fwd_cnt = 8;
    c.rx_queue.enqueue(RxOps::CreditUpdate);
    assert_eq!(c.recv_pkt(&mut pkt).unwrap(), RecvStep::Done);
    assert_eq!(pkt.op(), 6);
    assert_eq!(pkt.fwd_cnt(), 8);
    assert_eq!(c.last_fwd_cnt, 8);
}

#[test]
fn a_response_connects_and_tells_the_application() {
    let mut c = conn();
    match c.send_pkt(&guest_packet(2, None)) {
        SendStep::WriteAll(bytes) => assert_eq!(bytes, b"OK 4096\n"),
        _ => panic!("an answer is due"),
    }
    assert!(c.connect);
    assert_eq!((c.peer_buf_alloc, c.peer_fwd_cnt), (1000, 10));

    for port in [0u32, 9, 10, 907, u32::MAX] {
        c.set_peer_port(port);
        match c.send_pkt(&guest_packet(2, None)) {
            SendStep::WriteAll(bytes) => assert_eq!(bytes, format!("OK {}\n", port).into_bytes()),
            _ => panic!("an answer is due"),
        }
    }
}

#[test]
fn guest_data_is_written_or_kept() {
    let mut c = connected(0);
    let pkt = guest_packet(5, Some(vec![1, 2, 3, 4]));
    assert!(matches!(c.send_pkt(&pkt), SendStep::WriteData));
    c.fwd_cnt = u32::MAX;
    assert_eq!(c.send_bytes(pkt.data(), WriteOutcome::Written(3)).unwrap(), 3);
    assert_eq!(c.fwd_cnt, 2);
    assert_eq!(c.rx_queue.peek(), Some(RxOps::CreditUpdate));
    assert_eq!(c.tx_buf.flush_chunk(), &[4]);

    // What is kept goes first.
    assert!(matches!(c.send_pkt(&guest_packet(5, Some(vec![5, 6]))), SendStep::Done));
    assert_eq!(c.tx_buf.flush_chunk(), &[4, 5, 6]);
    assert_eq!(c.fwd_cnt, 2);
}

#[test]
fn a_blocked_or_failed_write() {
    let mut c = connected(0);
    assert_eq!(c.send_bytes(&[1, 2], WriteOutcome::WouldBlock).unwrap(), 0);
    assert_eq!(c.tx_buf.flush_chunk(), &[1, 2]);
    assert_eq!(c.fwd_cnt, 0);
    assert!(c.rx_queue.pending_rx());

    let mut c = connected(0);
    assert!(matches!(c.send_bytes(&[1, 2], WriteOutcome::Failed), Err(Error::UnixWrite)));
    assert!(c.tx_buf.is_empty());
    assert!(!c.rx_queue.pending_rx());

    let mut c = connected(0);
    let data = vec![0; 65537];
    assert!(matches!(
        c.send_bytes(&data, WriteOutcome::WouldBlock),
        Err(Error::LocalTxBufFull)
    ));
    assert!(c.tx_buf.is_empty());
    assert_eq!(c.send_bytes(&data, WriteOutcome::Written(1)).unwrap(), 1);
    assert_eq!(c.tx_buf.len(), 65536);
}

#[test]
fn bytes_behind_waiting_data_are_kept_whole_or_refused() {
    let mut c = connected(0);
    c.tx_buf.push(&[1, 2]).unwrap();
    c.fwd_cnt = 9;
    assert_eq!(c.send_bytes(&[3, 4, 5], WriteOutcome::WouldBlock).unwrap(), 0);
    assert_eq!(c.tx_buf.flush_chunk(), &[1, 2, 3, 4, 5]);
    assert_eq!(c.send_bytes(&[6], WriteOutcome::Failed).unwrap(), 0);
    assert_eq!(c.tx_buf.len(), 6);
    assert!(matches!(
        c.send_bytes(&vec![0; 65531], WriteOutcome::WouldBlock),
        Err(Error::LocalTxBufFull)
    ));
    assert_eq!(c.tx_buf.flush_chunk(), &[1, 2, 3, 4, 5, 6]);
    assert_eq!(c.send_bytes(&vec![0; 65530], WriteOutcome::WouldBlock).unwrap(), 0);
    assert_eq!(c.tx_buf.len(), 65536);
    assert_eq!(c.fwd_cnt, 9);
    assert!(!c.rx_queue.pending_rx());
}

#[test]
fn a_guest_within_its_credit_loses_nothing() {
    let mut c = connected(0);
    let mut sent: u32 = 0;
    for _ in 0..40 {
        let room = 65536 - sent.wrapping_sub(c.fwd_cnt) as usize;
        let n = room.min(3000);
        let data = vec![1u8; n];
        match c.send_pkt(&guest_packet(5, Some(data.clone()))) {
            SendStep::WriteData => {
                assert!(c.send_bytes(&data, WriteOutcome::Written(n / 2)).is_ok())
            }
            SendStep::Done => {}
            _ => panic!("data is written or kept"),
        }
        sent = sent.wrapping_add(n as u32);
        assert_eq!(sent.wrapping_sub(c.fwd_cnt) as usize, c.tx_buf.len());
    }
    assert_eq!(c.tx_buf.len(), 65536);
}

#[test]
fn flushed_data_stays_accounted_for() {
    let mut c = connected(0);
    let sent: u32 = 5;
    c.send_bytes(&[1, 2, 3, 4, 5], WriteOutcome::Written(1)).unwrap();
    assert_eq!(sent.wrapping_sub(c.fwd_cnt) as usize, c.tx_buf.len());
    c.tx_buf.flush_to(0, Some(3));
    c.fwd_cnt = c.fwd_cnt.wrapping_add(3);
    assert_eq!(sent.wrapping_sub(c.fwd_cnt) as usize, c.tx_buf.len());
    assert_eq!(c.tx_buf.flush_chunk(), &[5]);
}

#[test]
fn other_packets_from_the_guest() {
    let mut c = connected(0);
    assert!(matches!(c.send_pkt(&guest_packet(5, None)), SendStep::Done));
    assert!(matches!(c.send_pkt(&guest_packet(6, None)), SendStep::Rearm));
    assert!(!c.rx_queue.pending_rx());
    assert!(matches!(c.send_pkt(&guest_packet(7, None)), SendStep::Done));
    assert_eq!(c.rx_queue.dequeue(), Some(RxOps::CreditUpdate));
    assert!(matches!(c.send_pkt(&guest_packet(99, None)), SendStep::Done));
    assert!(!c.rx_queue.pending_rx());
    assert_eq!((c.peer_buf_alloc, c.peer_fwd_cnt), (1000, 10));
}

#[test]
fn a_full_shutdown_is_answered_with_a_reset() {
    for flags in 0..4u32 {
        let mut c = connected(0);
        let mut pkt = guest_packet(4, None);
        pkt.set_flags(flags);
        assert!(matches!(c.send_pkt(&pkt), SendStep::Done));
        assert_eq!(c.rx_queue.contains(RxOps::Rst.bitmask()), flags == 3);
    }
    let mut c = connected(0);
    c.tx_buf.push(&[1]).unwrap();
    let mut pkt = guest_packet(4, None);
    pkt.set_flags(3);
    assert!(matches!(c.send_pkt(&pkt), SendStep::Done));
    assert!(!c.rx_queue.pending_rx());
}
