//! Vsock packets: a header of fixed layout and, for data packets, a data buffer.

use virtio_queue::DescriptorChain;
use vm_memory::GuestMemoryMmap;
use vstd::prelude::*;

use crate::error::Error;
use crate::guest;
use crate::guest::Descriptor;
use crate::wire;

verus! {

/// Vsock packet header size when packed
pub const VSOCK_PKT_HDR_SIZE: usize = 44;

// Offset into header for source cid
const HDROFF_SRC_CID: usize = 0;

// Offset into header for destination cid
const HDROFF_DST_CID: usize = 8;

// Offset into header for source port
const HDROFF_SRC_PORT: usize = 16;

// Offset into header for destination port
const HDROFF_DST_PORT: usize = 20;

// Offset into the header for data length
const HDROFF_LEN: usize = 24;

// Offset into header for packet type
const HDROFF_TYPE: usize = 28;

// Offset into header for operation kind
const HDROFF_OP: usize = 30;

// Offset into header for additional flags
// only for VSOCK_OP_SHUTDOWN
const HDROFF_FLAGS: usize = 32;

// Offset into header for tx buf alloc
const HDROFF_BUF_ALLOC: usize = 36;

// Offset into header for forward count
const HDROFF_FWD_CNT: usize = 40;

/// The fields of the packet header.
pub enum HdrField {
    /// Source cid
    SrcCid,
    /// Destination cid
    DstCid,
    /// Source port
    SrcPort,
    /// Destination port
    DstPort,
    /// Data length
    Len,
    /// Packet type
    Type,
    /// Operation kind
    Op,
    /// Additional flags
    Flags,
    /// Size of the sender's buffer
    BufAlloc,
    /// Bytes that the sender has forwarded
    FwdCnt,
}

impl HdrField {
    /// Where in the header the field starts.
    pub open spec fn offset(self) -> int {
        match self {
            HdrField::SrcCid => 0,
            HdrField::DstCid => 8,
            HdrField::SrcPort => 16,
            HdrField::DstPort => 20,
            HdrField::Len => 24,
            HdrField::Type => 28,
            HdrField::Op => 30,
            HdrField::Flags => 32,
            HdrField::BufAlloc => 36,
            HdrField::FwdCnt => 40,
        }
    }

    /// How many bytes the field takes.
    pub open spec fn width(self) -> nat {
        match self {
            HdrField::SrcCid | HdrField::DstCid => 8,
            HdrField::Type | HdrField::Op => 2,
            _ => 4,
        }
    }
}

/// What a packet consists of.
#[verifier::ext_equal]
pub struct PacketView {
    /// The header's bytes
    pub hdr: Seq<u8>,
    /// The data buffer, if the packet has one
    pub buf: Option<Seq<u8>>,
    /// Where in guest memory the header lies
    pub hdr_addr: u64,
    /// Where in guest memory the data buffer lies
    pub buf_addr: u64,
}

/// The value of a field in a header's bytes.
pub open spec fn header_field(hdr: Seq<u8>, f: HdrField) -> nat {
    wire::le_value(hdr.subrange(f.offset(), f.offset() + f.width()))
}

impl PacketView {
    /// The value of a header field.
    pub open spec fn field(self, f: HdrField) -> nat {
        header_field(self.hdr, f)
    }

    /// The part of the data buffer that the header announces.
    pub open spec fn filled(self) -> Seq<u8> {
        match self.buf {
            Some(bytes) => if self.field(HdrField::Len) < bytes.len() {
                bytes.take(self.field(HdrField::Len) as int)
            } else {
                bytes
            },
            None => Seq::empty(),
        }
    }

    /// The packet with one header field set.
    pub open spec fn with_field(self, f: HdrField, v: nat) -> PacketView {
        PacketView {
            hdr: wire::overwrite(self.hdr, f.offset(), wire::le_bytes(v, f.width())),
            ..self
        }
    }
}

/// The filled part is the front of the buffer: as much as the header announces, or all there is.
pub proof fn law_filled(p: PacketView)
    ensures
        p.buf is None ==> p.filled().len() == 0,
        p.buf matches Some(bytes) ==> {
            &&& p.field(HdrField::Len) <= bytes.len() ==> p.filled() == bytes.take(
                p.field(HdrField::Len) as int,
            )
            &&& p.field(HdrField::Len) >= bytes.len() ==> p.filled() == bytes
        },
{
    if let Some(bytes) = p.buf {
        assert(bytes.take(bytes.len() as int) =~= bytes);
    }
}

/// What is written back into guest memory for a packet: each a guest address and the bytes for it.
pub open spec fn put_back(p: PacketView, writes: Seq<(u64, Vec<u8>)>) -> bool {
    let data = p.filled();
    &&& writes.len() == if data.len() == 0 { 1nat } else { 2nat }
    &&& writes[0].0 == p.hdr_addr
    &&& writes[0].1@ == p.hdr
    &&& data.len() > 0 ==> writes[1].0 == p.buf_addr && writes[1].1@ == data
}

/// The guest gets the header where the packet's header lies and, where the header announces data,
/// just as much of the data buffer where that lies; and nothing else.
pub proof fn law_guest_gets_packet(p: PacketView, writes: Seq<(u64, Vec<u8>)>)
    requires
        put_back(p, writes),
    ensures
        1 <= writes.len() <= 2,
        writes[0].0 == p.hdr_addr,
        writes[0].1@ == p.hdr,
        writes.len() == 2 <==> p.buf is Some && (p.buf->0).len() > 0 && p.field(HdrField::Len) > 0,
        writes.len() == 2 ==> {
            &&& writes[1].0 == p.buf_addr
            &&& p.field(HdrField::Len) <= (p.buf->0).len() ==> writes[1].1@ == (p.buf->0).take(
                p.field(HdrField::Len) as int,
            )
            &&& p.field(HdrField::Len) > (p.buf->0).len() ==> writes[1].1@ == p.buf->0
        },
{
    law_filled(p);
}

/// The packet with these flags set too.
pub open spec fn flagged(p: PacketView, flag: u32) -> PacketView {
    p.with_field(HdrField::Flags, (p.field(HdrField::Flags) as u32 | flag) as nat)
}

/// Setting flags sets these, keeps those that were set, and changes nothing else of the packet.
pub proof fn law_flags_are_joined(p: PacketView, flag: u32, mask: u32, g: HdrField)
    requires
        p.hdr.len() == VSOCK_PKT_HDR_SIZE,
    ensures
        flagged(p, flag).field(HdrField::Flags) as u32 & mask == (p.field(HdrField::Flags) as u32
            & mask) | (flag & mask),
        g != HdrField::Flags ==> flagged(p, flag).field(g) == p.field(g),
        flagged(p, flag).buf == p.buf,
        flagged(p, flag).hdr_addr == p.hdr_addr,
        flagged(p, flag).buf_addr == p.buf_addr,
{
    wire::lemma_le_limits();
    law_field_bound(p.hdr, HdrField::Flags);
    let flags = p.field(HdrField::Flags) as u32;
    law_header_fields(p, HdrField::Flags, (flags | flag) as nat, HdrField::Flags);
    law_header_fields(p, HdrField::Flags, (flags | flag) as nat, g);
    assert((flags | flag) & mask == (flags & mask) | (flag & mask)) by (bit_vector);
}

/// A header field holds what was last set there, and setting it changes no other field and not
/// the header's size.
pub proof fn law_header_fields(p: PacketView, f: HdrField, v: nat, g: HdrField)
    requires
        p.hdr.len() == VSOCK_PKT_HDR_SIZE,
        v < wire::le_limit(f.width()),
    ensures
        p.with_field(f, v).field(g) == if f == g { v } else { p.field(g) },
        p.with_field(f, v).hdr.len() == VSOCK_PKT_HDR_SIZE,
        p.with_field(f, v).buf == p.buf,
{
    wire::law_le_round_trip(v, f.width());
    let bytes = wire::le_bytes(v, f.width());
    let after = p.with_field(f, v).hdr;
    if f == g {
        assert(after.subrange(g.offset(), g.offset() + g.width()) =~= bytes);
    } else {
        assert(after.subrange(g.offset(), g.offset() + g.width()) =~= p.hdr.subrange(
            g.offset(),
            g.offset() + g.width(),
        ));
    }
}

/// The number that two bytes spell, the first one counting least.
pub open spec fn spell2(hdr: Seq<u8>, at: int) -> nat {
    (hdr[at] + 0x100 * hdr[at + 1]) as nat
}

/// The number that four bytes spell, the first one counting least.
pub open spec fn spell4(hdr: Seq<u8>, at: int) -> nat {
    spell2(hdr, at) + 0x1_0000 * spell2(hdr, at + 2)
}

/// Where each field lies in the header, and that its first byte counts least: source and destination
/// CID, their ports, the data's length, type, operation and flags, buffer size and forward count.
pub proof fn law_header_bytes(hdr: Seq<u8>)
    requires
        hdr.len() == 44,
    ensures
        header_field(hdr, HdrField::SrcCid) == spell4(hdr, 0) + 0x1_0000_0000 * spell4(hdr, 4),
        header_field(hdr, HdrField::DstCid) == spell4(hdr, 8) + 0x1_0000_0000 * spell4(hdr, 12),
        header_field(hdr, HdrField::SrcPort) == spell4(hdr, 16),
        header_field(hdr, HdrField::DstPort) == spell4(hdr, 20),
        header_field(hdr, HdrField::Len) == spell4(hdr, 24),
        header_field(hdr, HdrField::Type) == spell2(hdr, 28),
        header_field(hdr, HdrField::Op) == spell2(hdr, 30),
        header_field(hdr, HdrField::Flags) == spell4(hdr, 32),
        header_field(hdr, HdrField::BufAlloc) == spell4(hdr, 36),
        header_field(hdr, HdrField::FwdCnt) == spell4(hdr, 40),
{
    lemma_spell8(hdr, 0);
    lemma_spell8(hdr, 8);
    lemma_spell4(hdr, 16);
    lemma_spell4(hdr, 20);
    lemma_spell4(hdr, 24);
    lemma_spell2(hdr, 28);
    lemma_spell2(hdr, 30);
    lemma_spell4(hdr, 32);
    lemma_spell4(hdr, 36);
    lemma_spell4(hdr, 40);
}

/// Two bytes in a row, least significant first.
proof fn lemma_spell2(hdr: Seq<u8>, at: int)
    requires
        0 <= at,
        at + 2 <= hdr.len(),
    ensures
        wire::le_value(hdr.subrange(at, at + 2)) == spell2(hdr, at),
{
    reveal_with_fuel(wire::le_value, 3);
    let b = hdr.subrange(at, at + 2);
    assert(b.drop_first()[0] == hdr[at + 1]);
    assert(b.drop_first().drop_first().len() == 0);
}

/// Four bytes in a row are two and two.
proof fn lemma_spell4(hdr: Seq<u8>, at: int)
    requires
        0 <= at,
        at + 4 <= hdr.len(),
    ensures
        wire::le_value(hdr.subrange(at, at + 4)) == spell4(hdr, at),
{
    reveal_with_fuel(wire::le_value, 3);
    let b = hdr.subrange(at, at + 4);
    assert(b.drop_first()[0] == hdr[at + 1]);
    assert(b.drop_first().drop_first() =~= hdr.subrange(at + 2, at + 4));
    lemma_spell2(hdr, at + 2);
}

/// Eight bytes in a row are four and four.
proof fn lemma_spell8(hdr: Seq<u8>, at: int)
    requires
        0 <= at,
        at + 8 <= hdr.len(),
    ensures
        wire::le_value(hdr.subrange(at, at + 8)) == spell4(hdr, at) + 0x1_0000_0000 * spell4(
            hdr,
            at + 4,
        ),
{
    reveal_with_fuel(wire::le_value, 3);
    let b = hdr.subrange(at, at + 8);
    let c = hdr.subrange(at + 2, at + 8);
    assert(b.drop_first()[0] == hdr[at + 1]);
    assert(b.drop_first().drop_first() =~= c);
    assert(c.drop_first()[0] == hdr[at + 3]);
    assert(c.drop_first().drop_first() =~= hdr.subrange(at + 4, at + 8));
    assert(wire::le_value(c) == hdr[at + 2] + 256 * (hdr[at + 3] + 256 * wire::le_value(
        hdr.subrange(at + 4, at + 8),
    )));
    assert(wire::le_value(b) == hdr[at] + 256 * (hdr[at + 1] + 256 * wire::le_value(c)));
    lemma_spell4(hdr, at + 4);
}

/// The fields lie side by side: every byte of the header belongs to exactly one of them.
pub proof fn law_header_layout(i: int)
    requires
        0 <= i < VSOCK_PKT_HDR_SIZE,
    ensures
        exists|f: HdrField| #[trigger] f.offset() <= i < f.offset() + f.width(),
        forall|f: HdrField, g: HdrField|
            #![trigger f.offset(), g.offset()]
            f.offset() <= i < f.offset() + f.width() && g.offset() <= i < g.offset() + g.width()
                ==> f == g,
{
    let f = if i < 8 {
        HdrField::SrcCid
    } else if i < 16 {
        HdrField::DstCid
    } else if i < 20 {
        HdrField::SrcPort
    } else if i < 24 {
        HdrField::DstPort
    } else if i < 28 {
        HdrField::Len
    } else if i < 30 {
        HdrField::Type
    } else if i < 32 {
        HdrField::Op
    } else if i < 36 {
        HdrField::Flags
    } else if i < 40 {
        HdrField::BufAlloc
    } else {
        HdrField::FwdCnt
    };
    assert(f.offset() <= i < f.offset() + f.width());
}

/// Why the chain of an rx packet is refused, if it is: both descriptors must be there and
/// writable, the first long enough for a header, and each within a single region of guest memory.
pub open spec fn rx_chain_error(d: Seq<Descriptor>, regions: Map<u64, u64>) -> Option<Error> {
    if d.len() < 1 {
        Some(Error::QueueMissingDescriptor)
    } else if !d[0].write_only {
        Some(Error::UnwritableDescriptor)
    } else if d.len() < 2 {
        Some(Error::QueueMissingDescriptor)
    } else if !d[1].write_only {
        Some(Error::UnwritableDescriptor)
    } else if d[0].len < VSOCK_PKT_HDR_SIZE {
        Some(Error::HdrDescTooSmall(d[0].len))
    } else if !guest::valid_range(regions, d[0].addr, VSOCK_PKT_HDR_SIZE as nat) {
        Some(Error::GuestMemoryError)
    } else if !guest::valid_range(regions, d[1].addr, d[1].len as nat) {
        Some(Error::GuestMemoryError)
    } else {
        None
    }
}

/// Why the chain of a tx packet is refused before its header is read, if it is: no descriptor may
/// be writable, and the first must hold a header within a single region of guest memory.
pub open spec fn tx_head_error(d: Seq<Descriptor>, regions: Map<u64, u64>) -> Option<Error> {
    if d[0].write_only || (d.len() >= 2 && d[1].write_only) {
        Some(Error::UnreadableDescriptor)
    } else if d[0].len < VSOCK_PKT_HDR_SIZE {
        Some(Error::HdrDescTooSmall(d[0].len))
    } else if !guest::valid_range(regions, d[0].addr, VSOCK_PKT_HDR_SIZE as nat) {
        Some(Error::GuestMemoryError)
    } else {
        None
    }
}

/// Why a tx packet is refused for its data, if it is, where its header announces `len` bytes of
/// it: the data buffer should be as large as described in the header, and within a single region
/// of guest memory.
pub open spec fn tx_data_error(d: Seq<Descriptor>, regions: Map<u64, u64>, len: nat) -> Option<
    Error,
> {
    if len == 0 {
        None
    } else if d[1].len < len {
        Some(Error::DataDescTooSmall)
    } else if !guest::valid_range(regions, d[1].addr, d[1].len as nat) {
        Some(Error::GuestMemoryError)
    } else {
        None
    }
}

/// What a tx packet with this header looks like, once nothing stands against it.
pub open spec fn is_tx_packet(p: PacketView, d: Seq<Descriptor>, hdr: Seq<u8>) -> bool {
    &&& p.hdr == hdr
    &&& p.hdr_addr == d[0].addr
    &&& if p.field(HdrField::Len) == 0 {
        p.buf is None
    } else {
        &&& p.buf matches Some(bytes) && bytes.len() == d[1].len && p.field(HdrField::Len)
            <= bytes.len()
        &&& p.buf_addr == d[1].addr
    }
}

/// What comes of the descriptors of a chain in the rx virtqueue: the reason against them, or a packet
/// where they lie, with what guest memory holds there.
pub open spec fn rx_outcome(
    d: Seq<Descriptor>,
    mem: GuestMemoryMmap,
    r: Result<VsockPacket, Error>,
) -> bool {
    match rx_chain_error(d, guest::guest_regions(mem)) {
        Some(e) => r == Err::<VsockPacket, Error>(e),
        None => {
            &&& r matches Ok(pkt)
            &&& pkt@.hdr_addr == d[0].addr
            &&& guest::guest_held(mem, d[0].addr, pkt@.hdr)
            &&& pkt@.buf_addr == d[1].addr
            &&& pkt@.buf matches Some(bytes) && bytes.len() == d[1].len && guest::guest_held(
                mem,
                d[1].addr,
                bytes,
            )
        },
    }
}

/// What comes of the descriptors of a chain in the tx virtqueue once the header `hdr` has been read
/// from the first of them: a data descriptor must be there if the header announces data, and what
/// stands against it decides; nothing else does.
pub open spec fn tx_read(
    d: Seq<Descriptor>,
    mem: GuestMemoryMmap,
    hdr: Seq<u8>,
    r: Result<VsockPacket, Error>,
) -> bool {
    let len = header_field(hdr, HdrField::Len);
    if len > 0 && d.len() < 2 {
        r == Err::<VsockPacket, Error>(Error::QueueMissingDescriptor)
    } else {
        match tx_data_error(d, guest::guest_regions(mem), len) {
            Some(e) => r == Err::<VsockPacket, Error>(e),
            None => {
                &&& r matches Ok(pkt)
                &&& is_tx_packet(pkt@, d, hdr)
                &&& pkt@.buf matches Some(bytes) ==> guest::guest_held(mem, d[1].addr, bytes)
            },
        }
    }
}

/// What comes of the descriptors of a chain in the tx virtqueue: the reason against them, or what
/// the header that guest memory holds makes of them.
pub open spec fn tx_outcome(
    d: Seq<Descriptor>,
    mem: GuestMemoryMmap,
    r: Result<VsockPacket, Error>,
) -> bool {
    if d.len() == 0 {
        r == Err::<VsockPacket, Error>(Error::QueueMissingDescriptor)
    } else {
        match tx_head_error(d, guest::guest_regions(mem)) {
            Some(e) => r == Err::<VsockPacket, Error>(e),
            None => exists|hdr: Seq<u8>| #[trigger]
                guest::guest_held(mem, d[0].addr, hdr) && hdr.len() == VSOCK_PKT_HDR_SIZE
                    && tx_read(d, mem, hdr, r),
        }
    }
}

/// A header field is no larger than its bytes can spell.
pub proof fn law_field_bound(hdr: Seq<u8>, f: HdrField)
    requires
        hdr.len() == VSOCK_PKT_HDR_SIZE,
    ensures
        header_field(hdr, f) < wire::le_limit(f.width()),
{
    wire::lemma_le_value_bound(hdr.subrange(f.offset(), f.offset() + f.width()));
}

/// An rx chain is taken exactly if both descriptors are there for the device to write, the first has
/// room for a header, and the header and the whole second one each lie in one region of guest
/// memory. The packet is then of just these. Which error comes of another follows the same order.
pub proof fn law_rx_chain_is_taken(
    d: Seq<Descriptor>,
    mem: GuestMemoryMmap,
    r: Result<VsockPacket, Error>,
)
    requires
        rx_outcome(d, mem, r),
    ensures
        ({
            let regions = guest::guest_regions(mem);
            let there = d.len() >= 2 && d[0].write_only && d[1].write_only;
            let lies = guest::valid_range(regions, d[0].addr, 44) && guest::valid_range(
                regions,
                d[1].addr,
                d[1].len as nat,
            );
            &&& r is Ok <==> there && d[0].len >= 44 && lies
            &&& r matches Ok(pkt) ==> {
                &&& pkt@.hdr_addr == d[0].addr
                &&& pkt@.hdr.len() == 44
                &&& guest::guest_held(mem, d[0].addr, pkt@.hdr)
                &&& pkt@.buf_addr == d[1].addr
                &&& pkt@.buf matches Some(bytes) && bytes.len() == d[1].len && guest::guest_held(
                    mem,
                    d[1].addr,
                    bytes,
                )
            }
            &&& r matches Err(e) ==> {
                &&& d.len() == 0 || (d.len() == 1 && d[0].write_only) ==> e
                    is QueueMissingDescriptor
                &&& d.len() >= 1 && !d[0].write_only ==> e is UnwritableDescriptor
                &&& d.len() >= 2 && !d[1].write_only ==> e is UnwritableDescriptor
                &&& there && d[0].len < 44 ==> e == Error::HdrDescTooSmall(d[0].len)
                &&& there && d[0].len >= 44 ==> e is GuestMemoryError
            }
        }),
{
    if let Ok(pkt) = r {
        lemma_header_size(&pkt);
    }
}

/// What is said of a tx chain's first descriptor: it must be there, no descriptor may be for the
/// device to write, and a whole header must lie in one region of guest memory. Otherwise the chain is
/// refused, with the error that tells so.
pub proof fn law_tx_head_is_checked(
    d: Seq<Descriptor>,
    mem: GuestMemoryMmap,
    r: Result<VsockPacket, Error>,
)
    requires
        tx_outcome(d, mem, r),
    ensures
        d.len() == 0 ==> r == Err::<VsockPacket, Error>(Error::QueueMissingDescriptor),
        d.len() >= 1 && d[0].write_only ==> r == Err::<VsockPacket, Error>(
            Error::UnreadableDescriptor,
        ),
        d.len() >= 2 && d[1].write_only ==> r == Err::<VsockPacket, Error>(
            Error::UnreadableDescriptor,
        ),
        ({
            let readable = d.len() >= 1 && !d[0].write_only && !(d.len() >= 2 && d[1].write_only);
            let lies = guest::valid_range(guest::guest_regions(mem), d[0].addr, 44);
            &&& readable && d[0].len < 44 ==> r == Err::<VsockPacket, Error>(
                Error::HdrDescTooSmall(d[0].len),
            )
            &&& readable && d[0].len >= 44 && !lies ==> r == Err::<VsockPacket, Error>(
                Error::GuestMemoryError,
            )
            &&& readable && d[0].len >= 44 && lies ==> exists|hdr: Seq<u8>| #[trigger]
                guest::guest_held(mem, d[0].addr, hdr) && hdr.len() == 44 && tx_read(
                    d,
                    mem,
                    hdr,
                    r,
                )
        }),
{
}

/// A tx packet whose header announces no data is taken without any, however many descriptors its
/// chain has. One whose header does is taken exactly if the second descriptor is there, has room for
/// all the data, and lies in one region of guest memory; its data is then the front of what lies
/// there.
pub proof fn law_tx_packet_is_taken(
    d: Seq<Descriptor>,
    mem: GuestMemoryMmap,
    hdr: Seq<u8>,
    r: Result<VsockPacket, Error>,
)
    requires
        d.len() >= 1,
        tx_read(d, mem, hdr, r),
    ensures
        ({
            let len = header_field(hdr, HdrField::Len);
            let lies = guest::valid_range(guest::guest_regions(mem), d[1].addr, d[1].len as nat);
            &&& r is Ok <==> len == 0 || (d.len() >= 2 && d[1].len >= len && lies)
            &&& r matches Ok(pkt) ==> {
                &&& pkt@.hdr == hdr
                &&& pkt@.hdr_addr == d[0].addr
                &&& len == 0 ==> pkt@.buf is None
                &&& len > 0 ==> pkt@.buf_addr == d[1].addr && (pkt@.buf matches Some(bytes)
                    && bytes.len() == d[1].len && guest::guest_held(mem, d[1].addr, bytes)
                    && pkt@.filled() == bytes.take(len as int))
            }
            &&& r matches Err(e) ==> {
                &&& d.len() < 2 ==> e is QueueMissingDescriptor
                &&& d.len() >= 2 && d[1].len < len ==> e is DataDescTooSmall
                &&& d.len() >= 2 && d[1].len >= len ==> e is GuestMemoryError
            }
        }),
{
    if let Ok(pkt) = r {
        law_filled(pkt@);
    }
}

/// A tx chain with nothing against its head is taken, whatever its header says, if its second
/// descriptor has room for all the data that a header can announce.
pub proof fn law_tx_chain_in_order(
    d: Seq<Descriptor>,
    mem: GuestMemoryMmap,
    r: Result<VsockPacket, Error>,
)
    requires
        tx_outcome(d, mem, r),
        d.len() == 2,
        tx_head_error(d, guest::guest_regions(mem)) is None,
        d[1].len == u32::MAX,
        guest::valid_range(guest::guest_regions(mem), d[1].addr, d[1].len as nat),
    ensures
        r is Ok,
{
    wire::lemma_le_limits();
    let hdr = choose|hdr: Seq<u8>| #[trigger]
        guest::guest_held(mem, d[0].addr, hdr) && hdr.len() == VSOCK_PKT_HDR_SIZE && tx_read(
            d,
            mem,
            hdr,
            r,
        );
    law_field_bound(hdr, HdrField::Len);
}

/// Vsock packet structure, a copy of what a virtq descriptor chain describes:
/// - chain head holds the packet header
/// - optional data descriptor, only present for data packets (VSOCK_OP_RW)
#[derive(Debug)]
pub struct VsockPacket {
    hdr: [u8; 44],
    buf: Option<Vec<u8>>,
    hdr_addr: u64,
    buf_addr: u64,
}

impl View for VsockPacket {
    type V = PacketView;

    closed spec fn view(&self) -> PacketView {
        PacketView {
            hdr: self.hdr@,
            buf: match self.buf {
                Some(bytes) => Some(bytes@),
                None => None,
            },
            hdr_addr: self.hdr_addr,
            buf_addr: self.buf_addr,
        }
    }
}

/// Every packet has a whole header.
pub proof fn lemma_header_size(pkt: &VsockPacket)
    ensures
        pkt@.hdr.len() == VSOCK_PKT_HDR_SIZE,
{
}

/// Of two values set in the same field, the last one counts.
pub proof fn lemma_set_twice(p: PacketView, f: HdrField, u: nat, v: nat)
    requires
        p.hdr.len() == VSOCK_PKT_HDR_SIZE,
        u < wire::le_limit(f.width()),
        v < wire::le_limit(f.width()),
    ensures
        p.with_field(f, u).with_field(f, v) == p.with_field(f, v),
{
    wire::law_le_round_trip(u, f.width());
    wire::law_le_round_trip(v, f.width());
    assert(p.with_field(f, u).with_field(f, v).hdr =~= p.with_field(f, v).hdr);
}

/// The bytes of a header as an array.
fn header_bytes(bytes: &Vec<u8>) -> (r: [u8; 44])
    requires
        bytes@.len() == 44,
    ensures
        r@ == bytes@,
{
    let mut hdr: [u8; 44] = [0u8; 44];
    let mut i: usize = 0;
    while i < 44
        invariant
            i <= 44,
            bytes@.len() == 44,
            forall|k: int| 0 <= k < i ==> #[trigger] hdr@[k] == bytes@[k],
        decreases 44 - i,
    {
        hdr[i] = bytes[i];
        i = i + 1;
    }
    assert(hdr@ =~= bytes@);
    hdr
}

impl VsockPacket {
    /// A packet from its header and data, and where in guest memory they lie.
    pub fn new(hdr: [u8; 44], hdr_addr: u64, buf: Option<Vec<u8>>, buf_addr: u64) -> (r: Self)
        ensures
            r@.hdr == hdr@,
            r@.hdr_addr == hdr_addr,
            r@.buf_addr == buf_addr,
            r@.buf is Some <==> buf is Some,
            buf matches Some(bytes) ==> r@.buf == Some(bytes@),
    {
        VsockPacket { hdr, buf, hdr_addr, buf_addr }
    }

    /// Create a vsock packet from a chain in the rx virtqueue.
    /// Perform bounds checking before creating it.
    ///
    /// The chain lies in guest memory, so it is for the guest to say which descriptors it holds;
    /// [`Self::from_rx_descriptors`] decides on them.
    pub fn from_rx_virtq_head(
        chain: &mut DescriptorChain<&GuestMemoryMmap>,
        mem: &GuestMemoryMmap,
    ) -> (r: Result<Self, Error>)
        ensures
            exists|d: Seq<Descriptor>| #[trigger]
                guest::handed_out(*old(chain), *final(chain), d, true) && rx_outcome(d, *mem, r),
            guest::chain_ended(*old(chain)) ==> r == Err::<Self, Error>(
                Error::QueueMissingDescriptor,
            ),
            r matches Ok(pkt) ==> {
                &&& guest::valid_range(
                    guest::guest_regions(*mem),
                    pkt@.hdr_addr,
                    VSOCK_PKT_HDR_SIZE as nat,
                )
                &&& pkt@.buf matches Some(bytes) && guest::valid_range(
                    guest::guest_regions(*mem),
                    pkt@.buf_addr,
                    bytes.len(),
                )
            },
    {
        let descriptors = guest::packet_descriptors(chain, true);
        Self::from_rx_descriptors(&descriptors, mem)
    }

    /// Create a vsock packet from the descriptors of a chain in the rx virtqueue: the head
    /// contains the packet header, the next one the packet data.
    pub fn from_rx_descriptors(descriptors: &Vec<Descriptor>, mem: &GuestMemoryMmap) -> (r: Result<
        Self,
        Error,
    >)
        ensures
            rx_outcome(descriptors@, *mem, r),
    {
        let mut num_descr: usize = 0;
        while num_descr < 2
            invariant
                num_descr <= 2,
                num_descr <= descriptors@.len(),
                forall|i: int| 0 <= i < num_descr ==> #[trigger] descriptors@[i].write_only,
            decreases 2 - num_descr,
        {
            if num_descr >= descriptors.len() {
                return Err(Error::QueueMissingDescriptor);
            }
            if !descriptors[num_descr].write_only {
                return Err(Error::UnwritableDescriptor);
            }
            num_descr = num_descr + 1;
        }
        let head_descr = descriptors[0];
        let data_descr = descriptors[1];
        if head_descr.len < VSOCK_PKT_HDR_SIZE as u32 {
            return Err(Error::HdrDescTooSmall(head_descr.len));
        }
        let hdr = match guest::guest_bytes(mem, head_descr.addr, VSOCK_PKT_HDR_SIZE) {
            Some(bytes) => header_bytes(&bytes),
            None => return Err(Error::GuestMemoryError),
        };
        match guest::guest_bytes(mem, data_descr.addr, data_descr.len as usize) {
            Some(bytes) => Ok(Self::new(hdr, head_descr.addr, Some(bytes), data_descr.addr)),
            None => Err(Error::GuestMemoryError),
        }
    }

    /// Create a vsock packet from a chain in the tx virtqueue.
    /// Bounds checking before creating it.
    ///
    /// A chain without descriptors, or without a data descriptor where the header announces data,
    /// is refused with `QueueMissingDescriptor`. It is for the guest to say which descriptors the
    /// chain holds; [`Self::from_tx_descriptors`] decides on them.
    pub fn from_tx_virtq_head(
        chain: &mut DescriptorChain<&GuestMemoryMmap>,
        mem: &GuestMemoryMmap,
    ) -> (r: Result<Self, Error>)
        ensures
            exists|d: Seq<Descriptor>| #[trigger]
                guest::handed_out(*old(chain), *final(chain), d, false) && tx_outcome(d, *mem, r),
            guest::chain_ended(*old(chain)) ==> r == Err::<Self, Error>(
                Error::QueueMissingDescriptor,
            ),
            r matches Ok(pkt) ==> {
                &&& guest::valid_range(
                    guest::guest_regions(*mem),
                    pkt@.hdr_addr,
                    VSOCK_PKT_HDR_SIZE as nat,
                )
                &&& match pkt@.buf {
                    Some(bytes) => {
                        &&& 0 < pkt@.field(HdrField::Len) <= bytes.len()
                        &&& guest::valid_range(
                            guest::guest_regions(*mem),
                            pkt@.buf_addr,
                            bytes.len(),
                        )
                    },
                    None => pkt@.field(HdrField::Len) == 0,
                }
            },
    {
        let descriptors = guest::packet_descriptors(chain, false);
        Self::from_tx_descriptors(&descriptors, mem)
    }

    /// Create a vsock packet from the descriptors of a chain in the tx virtqueue, as
    /// [`Self::from_tx_virtq_head`] does. Whether the packet has data is for its header to say,
    /// which lies in guest memory.
    pub fn from_tx_descriptors(descriptors: &Vec<Descriptor>, mem: &GuestMemoryMmap) -> (r: Result<
        Self,
        Error,
    >)
        ensures
            tx_outcome(descriptors@, *mem, r),
    {
        if descriptors.len() == 0 {
            return Err(Error::QueueMissingDescriptor);
        }
        // All buffers in the tx queue must be readable only
        if descriptors[0].write_only {
            return Err(Error::UnreadableDescriptor);
        }
        if descriptors.len() >= 2 && descriptors[1].write_only {
            return Err(Error::UnreadableDescriptor);
        }
        let head_descr = descriptors[0];
        if head_descr.len < VSOCK_PKT_HDR_SIZE as u32 {
            return Err(Error::HdrDescTooSmall(head_descr.len));
        }
        let hdr = match guest::guest_bytes(mem, head_descr.addr, VSOCK_PKT_HDR_SIZE) {
            Some(bytes) => header_bytes(&bytes),
            None => return Err(Error::GuestMemoryError),
        };
        Self::from_tx_header(hdr, descriptors, mem)
    }

    /// Create a vsock packet from its header and the descriptors of its chain in the tx virtqueue,
    /// where the header has been read from the first of them.
    pub fn from_tx_header(
        hdr: [u8; 44],
        descriptors: &Vec<Descriptor>,
        mem: &GuestMemoryMmap,
    ) -> (r: Result<Self, Error>)
        requires
            descriptors@.len() > 0,
        ensures
            tx_read(descriptors@, *mem, hdr@, r),
    {
        let head_addr = descriptors[0].addr;
        let pkt = Self::new(hdr, head_addr, None, 0);

        // Zero length packet
        if pkt.is_empty() {
            return Ok(pkt);
        }
        // There exists packet data as well
        if descriptors.len() < 2 {
            return Err(Error::QueueMissingDescriptor);
        }
        let data_descr = descriptors[1];

        // Data buffer should be as large as described in the header
        if data_descr.len < pkt.len() {
            return Err(Error::DataDescTooSmall);
        }
        match guest::guest_bytes(mem, data_descr.addr, data_descr.len as usize) {
            Some(bytes) => Ok(Self::new(hdr, head_addr, Some(bytes), data_descr.addr)),
            None => Err(Error::GuestMemoryError),
        }
    }

    /// In place byte slice access to vsock packet header
    pub fn hdr(&self) -> (r: &[u8])
        ensures
            r@ == self@.hdr,
            r@.len() == VSOCK_PKT_HDR_SIZE,
    {
        &self.hdr
    }

    /// In place mutable slice access to vsock packet header
    pub fn hdr_mut(&mut self) -> (r: &mut [u8])
        ensures
            r@ == old(self)@.hdr,
            r@.len() == VSOCK_PKT_HDR_SIZE,
            final(self)@ == (PacketView { hdr: final(r)@, ..old(self)@ }),
    {
        &mut self.hdr
    }

    /// Byte slice mutable access to vsock packet data buffer
    pub fn buf_mut(&mut self) -> (r: Option<&mut [u8]>)
        ensures
            match r {
                Some(bytes) => {
                    &&& old(self)@.buf == Some(bytes@)
                    &&& final(self)@ == (PacketView { buf: Some(final(bytes)@), ..old(self)@ })
                },
                None => old(self)@.buf is None && final(self)@ == old(self)@,
            },
    {
        match &mut self.buf {
            Some(bytes) => Some(bytes.as_mut_slice()),
            None => None,
        }
    }

    /// Byte slice access to vsock packet data buffer
    pub fn buf(&self) -> (r: Option<&[u8]>)
        ensures
            match r {
                Some(bytes) => self@.buf == Some(bytes@),
                None => self@.buf is None,
            },
    {
        match &self.buf {
            Some(bytes) => Some(bytes.as_slice()),
            None => None,
        }
    }

    /// The part of the data buffer that the header announces
    pub fn data(&self) -> (r: &[u8])
        ensures
            r@ == self@.filled(),
            r@.len() <= u32::MAX,
    {
        match &self.buf {
            Some(bytes) => {
                let len = self.len() as usize;
                let n: usize = if len < bytes.len() { len } else { bytes.len() };
                let data = vstd::slice::slice_subrange(bytes.as_slice(), 0, n);
                assert(data@ =~= self@.filled());
                data
            },
            None => vstd::slice::slice_subrange(&self.hdr, 0, 0),
        }
    }

    /// What to put back into guest memory once the packet is filled: the header where it came from
    /// and, if the header announces any, the data in its buffer.
    pub fn guest_writes(&self) -> (r: Vec<(u64, Vec<u8>)>)
        ensures
            put_back(self@, r@),
    {
        let mut writes: Vec<(u64, Vec<u8>)> = Vec::new();
        writes.push((self.hdr_addr, vstd::slice::slice_to_vec(self.hdr())));
        let data = self.data();
        if data.len() > 0 {
            writes.push((self.buf_addr, vstd::slice::slice_to_vec(data)));
        }
        writes
    }

    /// Check if the packet has no data
    pub fn is_empty(&self) -> (r: bool)
        ensures
            r == (self@.field(HdrField::Len) == 0),
    {
        self.len() == 0
    }

    /// Set OP specific flags
    pub fn set_flag(&mut self, flag: u32) -> (r: &mut Self)
        ensures
            r@ == flagged(old(self)@, flag),
            *final(self) == *final(r),
    {
        let flags = self.flags();
        self.set_flags(flags | flag)
    }

    /// Size of vsock packet data, found by accessing len field
    /// of virtio_vsock_hdr struct
    pub fn len(&self) -> (r: u32)
        ensures
            r == self@.field(HdrField::Len),
    {
        wire::read_u32(&self.hdr, HDROFF_LEN)
    }

    /// Get destination port from packet
    pub fn dst_port(&self) -> (r: u32)
        ensures
            r == self@.field(HdrField::DstPort),
    {
        wire::read_u32(&self.hdr, HDROFF_DST_PORT)
    }

    /// Get source port from packet
    pub fn src_port(&self) -> (r: u32)
        ensures
            r == self@.field(HdrField::SrcPort),
    {
        wire::read_u32(&self.hdr, HDROFF_SRC_PORT)
    }

    /// Get source cid from packet
    pub fn src_cid(&self) -> (r: u64)
        ensures
            r == self@.field(HdrField::SrcCid),
    {
        wire::read_u64(&self.hdr, HDROFF_SRC_CID)
    }

    /// Get destination cid from packet
    pub fn dst_cid(&self) -> (r: u64)
        ensures
            r == self@.field(HdrField::DstCid),
    {
        wire::read_u64(&self.hdr, HDROFF_DST_CID)
    }

    /// Get packet type
    pub fn pkt_type(&self) -> (r: u16)
        ensures
            r == self@.field(HdrField::Type),
    {
        wire::read_u16(&self.hdr, HDROFF_TYPE)
    }

    /// Get operation requested in the packet
    pub fn op(&self) -> (r: u16)
        ensures
            r == self@.field(HdrField::Op),
    {
        wire::read_u16(&self.hdr, HDROFF_OP)
    }

    /// Read buf alloc
    pub fn buf_alloc(&self) -> (r: u32)
        ensures
            r == self@.field(HdrField::BufAlloc),
    {
        wire::read_u32(&self.hdr, HDROFF_BUF_ALLOC)
    }

    /// Get fwd cnt from packet header
    pub fn fwd_cnt(&self) -> (r: u32)
        ensures
            r == self@.field(HdrField::FwdCnt),
    {
        wire::read_u32(&self.hdr, HDROFF_FWD_CNT)
    }

    /// Read flags from the packet header
    pub fn flags(&self) -> (r: u32)
        ensures
            r == self@.field(HdrField::Flags),
    {
        wire::read_u32(&self.hdr, HDROFF_FLAGS)
    }

    /// Set the source cid
    pub fn set_src_cid(&mut self, cid: u64) -> (r: &mut Self)
        ensures
            r@ == old(self)@.with_field(HdrField::SrcCid, cid as nat),
            *final(self) == *final(r),
    {
        wire::write_u64(&mut self.hdr, HDROFF_SRC_CID, cid);
        self
    }

    /// Set the destination cid
    pub fn set_dst_cid(&mut self, cid: u64) -> (r: &mut Self)
        ensures
            r@ == old(self)@.with_field(HdrField::DstCid, cid as nat),
            *final(self) == *final(r),
    {
        wire::write_u64(&mut self.hdr, HDROFF_DST_CID, cid);
        self
    }

    /// Set source port
    pub fn set_src_port(&mut self, port: u32) -> (r: &mut Self)
        ensures
            r@ == old(self)@.with_field(HdrField::SrcPort, port as nat),
            *final(self) == *final(r),
    {
        wire::write_u32(&mut self.hdr, HDROFF_SRC_PORT, port);
        self
    }

    /// Set destination port
    pub fn set_dst_port(&mut self, port: u32) -> (r: &mut Self)
        ensures
            r@ == old(self)@.with_field(HdrField::DstPort, port as nat),
            *final(self) == *final(r),
    {
        wire::write_u32(&mut self.hdr, HDROFF_DST_PORT, port);
        self
    }

    /// Set type of connection
    pub fn set_type(&mut self, type_: u16) -> (r: &mut Self)
        ensures
            r@ == old(self)@.with_field(HdrField::Type, type_ as nat),
            *final(self) == *final(r),
    {
        wire::write_u16(&mut self.hdr, HDROFF_TYPE, type_);
        self
    }

    /// Set size of tx buf
    pub fn set_buf_alloc(&mut self, buf_alloc: u32) -> (r: &mut Self)
        ensures
            r@ == old(self)@.with_field(HdrField::BufAlloc, buf_alloc as nat),
            *final(self) == *final(r),
    {
        wire::write_u32(&mut self.hdr, HDROFF_BUF_ALLOC, buf_alloc);
        self
    }

    /// Set amount of tx buf data written to stream
    pub fn set_fwd_cnt(&mut self, fwd_cnt: u32) -> (r: &mut Self)
        ensures
            r@ == old(self)@.with_field(HdrField::FwdCnt, fwd_cnt as nat),
            *final(self) == *final(r),
    {
        wire::write_u32(&mut self.hdr, HDROFF_FWD_CNT, fwd_cnt);
        self
    }

    /// Set packet operation ID
    pub fn set_op(&mut self, op: u16) -> (r: &mut Self)
        ensures
            r@ == old(self)@.with_field(HdrField::Op, op as nat),
            *final(self) == *final(r),
    {
        wire::write_u16(&mut self.hdr, HDROFF_OP, op);
        self
    }

    /// Set data buffer length
    pub fn set_len(&mut self, len: u32) -> (r: &mut Self)
        ensures
            r@ == old(self)@.with_field(HdrField::Len, len as nat),
            *final(self) == *final(r),
    {
        wire::write_u32(&mut self.hdr, HDROFF_LEN, len);
        self
    }

    /// Set packet header flag to flags
    pub fn set_flags(&mut self, flags: u32) -> (r: &mut Self)
        ensures
            r@ == old(self)@.with_field(HdrField::Flags, flags as nat),
            *final(self) == *final(r),
    {
        wire::write_u32(&mut self.hdr, HDROFF_FLAGS, flags);
        self
    }
}

} // verus!
