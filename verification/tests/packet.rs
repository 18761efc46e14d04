use vhost_user_vsock::error::Error;
use vhost_user_vsock::guest::add_descriptor;
use vhost_user_vsock::guest::guest_bytes;
use vhost_user_vsock::guest::packet_descriptors;
use vhost_user_vsock::guest::Descriptor;
use vhost_user_vsock::packet::VsockPacket;
use vhost_user_vsock::packet::VSOCK_PKT_HDR_SIZE;
use virtio_queue::Queue;
use virtio_queue::QueueOwnedT;
use virtio_queue::QueueT;
use vm_memory::Bytes;
use vm_memory::GuestAddress;
use vm_memory::GuestMemoryMmap;

const DESC_TABLE: u64 = 0x1000;
const AVAIL_RING: u64 = 0x2000;
const USED_RING: u64 = 0x3000;
const F_NEXT: u16 = 1;
const F_WRITE: u16 = 2;

/// Guest memory in three regions, of which the first two lie side by side.
fn memory() -> GuestMemoryMmap {
    GuestMemoryMmap::from_ranges(&[
        (GuestAddress(0), 0x8000),
        (GuestAddress(0x8000), 0x8000),
        (GuestAddress(0x2_0000), 0x1000),
    ])
    .unwrap()
}

/// A queue with one available chain of these descriptors.
fn queue_with(mem: &GuestMemoryMmap, descriptors: &[Descriptor]) -> Queue {
    for (i, d) in descriptors.iter().enumerate() {
        let at = DESC_TABLE + 16 * i as u64;
        let last = i + 1 == descriptors.len();
        let mut flags = if last { 0 } else { F_NEXT };
        if d.write_only {
            flags |= F_WRITE;
        }
        mem.write_slice(&d.addr.to_le_bytes(), GuestAddress(at)).unwrap();
        mem.write_slice(&d.len.to_le_bytes(), GuestAddress(at + 8)).unwrap();
        mem.write_slice(&flags.to_le_bytes(), GuestAddress(at + 12)).unwrap();
        mem.write_slice(&(i as u16 + 1).to_le_bytes(), GuestAddress(at + 14)).unwrap();
    }
    mem.write_slice(&1u16.to_le_bytes(), GuestAddress(AVAIL_RING + 2)).unwrap();
    mem.write_slice(&0u16.to_le_bytes(), GuestAddress(AVAIL_RING + 4)).unwrap();
    let mut queue = Queue::new(16).unwrap();
    queue.set_size(16);
    queue.set_desc_table_address(Some(DESC_TABLE as u32), Some(0));
    queue.set_avail_ring_address(Some(AVAIL_RING as u32), Some(0));
    queue.set_used_ring_address(Some(USED_RING as u32), Some(0));
    queue.set_ready(true);
    queue
}

fn readable(addr: u64, len: u32) -> Descriptor {
    Descriptor { addr, len, write_only: false, has_next: false }
}

fn writable(addr: u64, len: u32) -> Descriptor {
    Descriptor { addr, len, write_only: true, has_next: false }
}

/// A descriptor that another one follows.
fn followed(d: Descriptor) -> Descriptor {
    Descriptor { has_next: true, ..d }
}

fn rx(mem: &GuestMemoryMmap, descriptors: &[Descriptor]) -> Result<VsockPacket, Error> {
    let mut queue = queue_with(mem, descriptors);
    let mut chain = queue.iter(mem).unwrap().next().unwrap();
    VsockPacket::from_rx_virtq_head(&mut chain, mem)
}

fn tx(mem: &GuestMemoryMmap, descriptors: &[Descriptor]) -> Result<VsockPacket, Error> {
    let mut queue = queue_with(mem, descriptors);
    let mut chain = queue.iter(mem).unwrap().next().unwrap();
    VsockPacket::from_tx_virtq_head(&mut chain, mem)
}

/// Puts a header with this data length at 0x4000.
fn write_header(mem: &GuestMemoryMmap, len: u32) {
    let mut pkt = VsockPacket::new([0; 44], 0, None, 0);
    pkt.set_src_cid(3).set_dst_cid(2).set_src_port(11).set_dst_port(22).set_len(len);
    mem.write_slice(pkt.hdr(), GuestAddress(0x4000)).unwrap();
}

#[test]
fn header_layout() {
    let mut pkt = VsockPacket::new([0; 44], 0, None, 0);
    pkt.set_src_cid(0x0807_0605_0403_0201)
        .set_dst_cid(0x100f_0e0d_0c0b_0a09)
        .set_src_port(0x1413_1211)
        .set_dst_port(0x1817_1615)
        .set_len(0x1c1b_1a19)
        .set_type(0x1e1d)
        .set_op(0x201f)
        .set_flags(0x2423_2221)
        .set_buf_alloc(0x2827_2625)
        .set_fwd_cnt(0x2c2b_2a29);
    let expected: Vec<u8> = (1..=44).collect();
    assert_eq!(pkt.hdr(), expected.as_slice());
    assert_eq!(pkt.hdr().len(), VSOCK_PKT_HDR_SIZE);
    assert_eq!(pkt.src_cid(), 0x0807_0605_0403_0201);
    assert_eq!(pkt.dst_cid(), 0x100f_0e0d_0c0b_0a09);
    assert_eq!(pkt.src_port(), 0x1413_1211);
    assert_eq!(pkt.dst_port(), 0x1817_1615);
    assert_eq!(pkt.len(), 0x1c1b_1a19);
    assert_eq!(pkt.pkt_type(), 0x1e1d);
    assert_eq!(pkt.op(), 0x201f);
    assert_eq!(pkt.flags(), 0x2423_2221);
    assert_eq!(pkt.buf_alloc(), 0x2827_2625);
    assert_eq!(pkt.fwd_cnt(), 0x2c2b_2a29);
}

#[test]
fn setting_a_field_changes_no_other() {
    let mut pkt = VsockPacket::new([0xff; 44], 0, None, 0);
    pkt.set_op(0x1234);
    let mut expected = vec![0xffu8; 44];
    expected[30] = 0x34;
    expected[31] = 0x12;
    assert_eq!(pkt.hdr(), expected.as_slice());
    pkt.set_op(7);
    assert_eq!(pkt.op(), 7);
    assert_eq!(pkt.pkt_type(), 0xffff);
}

#[test]
fn flags_add_up() {
    let mut pkt = VsockPacket::new([0; 44], 0, None, 0);
    pkt.set_flag(1).set_flag(2);
    assert_eq!(pkt.flags(), 3);
    pkt.set_flag(2);
    assert_eq!(pkt.flags(), 3);
    pkt.set_flags(4);
    assert_eq!(pkt.flags(), 4);
}

#[test]
fn header_and_buffer_can_be_changed_in_place() {
    let mut pkt = VsockPacket::new([0; 44], 0, Some(vec![1, 2, 3]), 0);
    pkt.hdr_mut()[24] = 2;
    pkt.buf_mut().unwrap()[0] = 9;
    assert_eq!(pkt.len(), 2);
    assert!(!pkt.is_empty());
    assert_eq!(pkt.buf().unwrap(), &[9, 2, 3]);
    assert_eq!(pkt.data(), &[9, 2]);
    let mut empty = VsockPacket::new([0; 44], 0, None, 0);
    assert!(empty.is_empty());
    assert!(empty.buf().is_none());
    assert!(empty.buf_mut().is_none());
    assert_eq!(empty.data(), &[]);
}

#[test]
fn what_goes_back_into_guest_memory() {
    let mut pkt = VsockPacket::new([7; 44], 0x100, Some(vec![1, 2, 3]), 0x200);
    pkt.set_len(0);
    let header = pkt.hdr().to_vec();
    assert_eq!(pkt.guest_writes(), vec![(0x100, header)]);
    pkt.set_len(2);
    let header = pkt.hdr().to_vec();
    assert_eq!(pkt.guest_writes(), vec![(0x100, header), (0x200, vec![1, 2])]);
    pkt.set_len(99);
    assert_eq!(pkt.guest_writes()[1], (0x200, vec![1, 2, 3]));
}

#[test]
fn guest_bytes_of_ranges_within_one_region() {
    let mem = memory();
    mem.write_slice(&[1, 2, 3, 4], GuestAddress(0x7ffc)).unwrap();
    assert_eq!(guest_bytes(&mem, 0x7ffc, 4), Some(vec![1, 2, 3, 4]));
    assert_eq!(guest_bytes(&mem, 0x7ffc, 5), None);
    assert_eq!(guest_bytes(&mem, 0x7ffe, 4), None);
    assert_eq!(guest_bytes(&mem, 0x8000, 0x8000).unwrap().len(), 0x8000);
    assert_eq!(guest_bytes(&mem, 0x8000, 0x8001), None);
    assert_eq!(guest_bytes(&mem, 0x1_0000, 1), None);
    assert_eq!(guest_bytes(&mem, 0x1_0000, 0), None);
    assert_eq!(guest_bytes(&mem, 0xffff, 0), Some(vec![]));
    assert_eq!(guest_bytes(&mem, 0x2_0000, 0x1000).unwrap().len(), 0x1000);
    assert_eq!(guest_bytes(&mem, u64::MAX, 2), None);
    assert_eq!(guest_bytes(&mem, 0, usize::MAX), None);
}

#[test]
fn only_the_first_two_descriptors_count() {
    let mem = memory();
    let all = [readable(1, 2), writable(3, 4), readable(5, 6)];
    let mut queue = queue_with(&mem, &all);
    let mut chain = queue.iter(&mem).unwrap().next().unwrap();
    assert_eq!(
        packet_descriptors(&mut chain, false),
        vec![followed(readable(1, 2)), followed(writable(3, 4))]
    );
    assert_eq!(packet_descriptors(&mut chain, false), vec![readable(5, 6)]);
}

#[test]
fn an_ended_chain_gives_nothing() {
    let mem = memory();
    let mut queue = queue_with(&mem, &[readable(1, 2), writable(3, 4)]);
    let mut chain = queue.iter(&mem).unwrap().next().unwrap();
    assert_eq!(
        packet_descriptors(&mut chain, false),
        vec![followed(readable(1, 2)), writable(3, 4)]
    );
    assert_eq!(packet_descriptors(&mut chain, false), vec![]);
    assert!(matches!(
        VsockPacket::from_rx_virtq_head(&mut chain, &mem),
        Err(Error::QueueMissingDescriptor)
    ));
    assert!(matches!(
        VsockPacket::from_tx_virtq_head(&mut chain, &mem),
        Err(Error::QueueMissingDescriptor)
    ));

    let mut queue = queue_with(&mem, &[readable(1, 2)]);
    let mut chain = queue.iter(&mem).unwrap().next().unwrap();
    assert_eq!(packet_descriptors(&mut chain, false), vec![readable(1, 2)]);
    assert_eq!(packet_descriptors(&mut chain, false), vec![]);
}

#[test]
fn a_chain_describes_less_than_four_gigabytes() {
    let mem = memory();
    let mut queue = queue_with(&mem, &[readable(1, u32::MAX), readable(2, 1)]);
    let mut chain = queue.iter(&mem).unwrap().next().unwrap();
    assert_eq!(packet_descriptors(&mut chain, false), vec![followed(readable(1, u32::MAX))]);

    let mut queue = queue_with(&mem, &[readable(1, u32::MAX - 1), readable(2, 1)]);
    let mut chain = queue.iter(&mem).unwrap().next().unwrap();
    assert_eq!(packet_descriptors(&mut chain, false).len(), 2);
}

#[test]
fn descriptors_are_asked_for_until_there_are_two_or_no_more() {
    let mut descriptors = Vec::new();
    assert!(!add_descriptor(&mut descriptors, None, false));
    assert_eq!(descriptors, vec![]);
    assert!(add_descriptor(&mut descriptors, Some(readable(1, 2)), false));
    assert_eq!(descriptors, vec![readable(1, 2)]);
    assert!(!add_descriptor(&mut descriptors, None, false));
    assert!(!add_descriptor(&mut descriptors, Some(readable(3, 4)), false));
    assert_eq!(descriptors, vec![readable(1, 2), readable(3, 4)]);

    let mut descriptors = Vec::new();
    assert!(!add_descriptor(&mut descriptors, Some(readable(1, 2)), true));
    assert_eq!(descriptors, vec![readable(1, 2)]);
}

#[test]
fn a_chain_is_asked_no_further_than_a_wrong_descriptor() {
    let mem = memory();
    let mut queue = queue_with(&mem, &[readable(1, 2), writable(3, 4)]);
    let mut chain = queue.iter(&mem).unwrap().next().unwrap();
    assert_eq!(packet_descriptors(&mut chain, true), vec![followed(readable(1, 2))]);
    assert_eq!(packet_descriptors(&mut chain, true), vec![writable(3, 4)]);
}

#[test]
fn what_a_header_makes_of_its_descriptors() {
    let mem = memory();
    let mut pkt = VsockPacket::new([0; 44], 0, None, 0);
    let one = vec![readable(0x4000, 44)];
    let two = vec![followed(readable(0x4000, 44)), readable(0x5000, 4)];
    mem.write_slice(&[9, 8, 7, 6], GuestAddress(0x5000)).unwrap();

    let header = |pkt: &VsockPacket| -> [u8; 44] { pkt.hdr().try_into().unwrap() };
    assert!(VsockPacket::from_tx_header(header(&pkt), &one, &mem).unwrap().buf().is_none());
    assert!(VsockPacket::from_tx_header(header(&pkt), &two, &mem).unwrap().buf().is_none());
    pkt.set_len(3);
    assert!(matches!(
        VsockPacket::from_tx_header(header(&pkt), &one, &mem),
        Err(Error::QueueMissingDescriptor)
    ));
    let taken = VsockPacket::from_tx_header(header(&pkt), &two, &mem).unwrap();
    assert_eq!(taken.data(), &[9, 8, 7]);
    assert_eq!(taken.hdr(), pkt.hdr());
    pkt.set_len(5);
    assert!(matches!(
        VsockPacket::from_tx_header(header(&pkt), &two, &mem),
        Err(Error::DataDescTooSmall)
    ));
}

#[test]
fn rx_packet() {
    let mem = memory();
    let pkt = rx(&mem, &[writable(0x4000, 44), writable(0x5000, 100)]).unwrap();
    assert_eq!(pkt.buf().unwrap().len(), 100);
    assert_eq!(pkt.guest_writes()[0].0, 0x4000);
}

#[test]
fn rx_chains_that_are_refused() {
    let mem = memory();
    assert!(matches!(
        rx(&mem, &[readable(0x4000, 44), writable(0x5000, 100)]),
        Err(Error::UnwritableDescriptor)
    ));
    assert!(matches!(
        rx(&mem, &[writable(0x4000, 44), readable(0x5000, 100)]),
        Err(Error::UnwritableDescriptor)
    ));
    assert!(matches!(
        rx(&mem, &[writable(0x4000, 44)]),
        Err(Error::QueueMissingDescriptor)
    ));
    assert!(matches!(
        rx(&mem, &[writable(0x4000, 43), writable(0x5000, 100)]),
        Err(Error::HdrDescTooSmall(43))
    ));
    assert!(matches!(
        rx(&mem, &[writable(0xfff0, 44), writable(0x5000, 100)]),
        Err(Error::GuestMemoryError)
    ));
    assert!(matches!(
        rx(&mem, &[writable(0x4000, 44), writable(0xfff0, 100)]),
        Err(Error::GuestMemoryError)
    ));
    assert!(matches!(
        rx(&mem, &[writable(0x4000, 44), writable(0x7ff0, 100)]),
        Err(Error::GuestMemoryError)
    ));
    assert!(matches!(
        VsockPacket::from_rx_descriptors(&vec![], &mem),
        Err(Error::QueueMissingDescriptor)
    ));
    assert!(matches!(
        VsockPacket::from_tx_descriptors(&vec![], &mem),
        Err(Error::QueueMissingDescriptor)
    ));
}

#[test]
fn tx_packet_with_data() {
    let mem = memory();
    write_header(&mem, 3);
    mem.write_slice(&[7, 8, 9, 10], GuestAddress(0x5000)).unwrap();
    let pkt = tx(&mem, &[readable(0x4000, 44), readable(0x5000, 4)]).unwrap();
    assert_eq!(pkt.src_port(), 11);
    assert_eq!(pkt.dst_port(), 22);
    assert_eq!(pkt.buf().unwrap(), &[7, 8, 9, 10]);
    assert_eq!(pkt.data(), &[7, 8, 9]);
}

#[test]
fn tx_packet_without_data() {
    let mem = memory();
    write_header(&mem, 0);
    let pkt = tx(&mem, &[readable(0x4000, 44)]).unwrap();
    assert!(pkt.is_empty());
    assert!(pkt.buf().is_none());
    let pkt = tx(&mem, &[readable(0x4000, 50), readable(0x5000, 4)]).unwrap();
    assert!(pkt.buf().is_none());
}

#[test]
fn tx_chains_that_are_refused() {
    let mem = memory();
    write_header(&mem, 5);
    assert!(matches!(
        tx(&mem, &[writable(0x4000, 44)]),
        Err(Error::UnreadableDescriptor)
    ));
    assert!(matches!(
        tx(&mem, &[readable(0x4000, 44), writable(0x5000, 5)]),
        Err(Error::UnreadableDescriptor)
    ));
    assert!(matches!(
        tx(&mem, &[readable(0x4000, 40), readable(0x5000, 5)]),
        Err(Error::HdrDescTooSmall(40))
    ));
    assert!(matches!(
        tx(&mem, &[readable(0x1_0000, 44), readable(0x5000, 5)]),
        Err(Error::GuestMemoryError)
    ));
    assert!(matches!(
        tx(&mem, &[readable(0x4000, 44)]),
        Err(Error::QueueMissingDescriptor)
    ));
    assert!(matches!(
        tx(&mem, &[readable(0x4000, 44), readable(0x5000, 4)]),
        Err(Error::DataDescTooSmall)
    ));
    assert!(matches!(
        tx(&mem, &[readable(0x4000, 44), readable(0xffff, 5)]),
        Err(Error::GuestMemoryError)
    ));
}

#[test]
fn a_filled_rx_packet_reaches_the_guest() {
    let mem = memory();
    let mut pkt = rx(&mem, &[writable(0x4000, 44), writable(0x7f00, 100)]).unwrap();
    pkt.set_src_port(5).set_len(4);
    pkt.buf_mut().unwrap()[..4].copy_from_slice(&[1, 2, 3, 4]);
    for (addr, bytes) in pkt.guest_writes() {
        mem.write_slice(&bytes, GuestAddress(addr)).unwrap();
    }
    assert_eq!(guest_bytes(&mem, 0x7f00, 4), Some(vec![1, 2, 3, 4]));
    assert_eq!(guest_bytes(&mem, 0x4010, 4), Some(vec![5, 0, 0, 0]));
}
