//! The guest's memory and the descriptor chains in it.

use virtio_queue::DescriptorChain;
use vm_memory::Bytes;
use vm_memory::GuestAddress;
use vm_memory::GuestMemory;
use vm_memory::GuestMemoryMmap;
use vstd::prelude::*;

verus! {

/// Declares `vm_memory::GuestMemoryMmap`, the mapped memory regions of a guest.
#[verifier::external_type_specification]
#[verifier::external_body]
#[verifier::reject_recursive_types(B)]
pub struct ExGuestMemoryMmap<B>(vm_memory::GuestMemoryMmap<B>);

/// Declares `virtio_queue::DescriptorChain`, which walks a chain in a guest's descriptor table.
#[verifier::external_type_specification]
#[verifier::external_body]
#[verifier::reject_recursive_types(M)]
pub struct ExDescriptorChain<M>(virtio_queue::DescriptorChain<M>);

/// The memory regions of `mem`: the size of each, by its first guest address. Which regions there
/// are is fixed when the value is made; what the memory holds is the guest's to change at any time.
pub uninterp spec fn guest_regions(mem: GuestMemoryMmap) -> Map<u64, u64>;

/// `addr` lies in a region, and the `len` bytes from there on lie within that single region.
pub open spec fn valid_range(regions: Map<u64, u64>, addr: u64, len: nat) -> bool {
    exists|start: u64| #[trigger]
        regions.contains_key(start) && start <= addr < start + regions[start] && addr + len <= start
            + regions[start]
}

/// One descriptor of a chain: a buffer in guest memory.
#[derive(Debug, Clone, Copy, PartialEq, Eq, Structural)]
pub struct Descriptor {
    /// Guest address of the buffer
    pub addr: u64,
    /// Length of the buffer
    pub len: u32,
    /// Whether the driver lets the device write the buffer; if not, the device may only read it
    pub write_only: bool,
    /// Whether the driver says that another descriptor follows in the chain
    pub has_next: bool,
}

/// The chain gives no descriptor any more, whatever guest memory holds: its last one has been handed
/// out, as many as its table has entries have been, or it leads outside its table.
pub uninterp spec fn chain_ended(chain: DescriptorChain<&GuestMemoryMmap>) -> bool;

/// How many bytes the buffers of the descriptors that the chain has handed out have together. The
/// chain keeps count of them.
pub uninterp spec fn chain_bytes(chain: DescriptorChain<&GuestMemoryMmap>) -> nat;

/// The chain `before`, asked for its next descriptor, has given `next` and become `after`. What it
/// gives is the guest's to say: asked at another time, it may give something else.
pub uninterp spec fn chain_gave(
    before: DescriptorChain<&GuestMemoryMmap>,
    next: Option<Descriptor>,
    after: DescriptorChain<&GuestMemoryMmap>,
) -> bool;

/// A read of guest memory at `addr` has given `bytes`. What memory holds is the guest's to say: a
/// read at another time may give other bytes.
pub uninterp spec fn guest_held(mem: GuestMemoryMmap, addr: u64, bytes: Seq<u8>) -> bool;

/// How many bytes the buffers have together.
pub open spec fn total_len(descriptors: Seq<Descriptor>) -> nat
    decreases descriptors.len(),
{
    if descriptors.len() == 0 {
        0
    } else {
        total_len(descriptors.drop_last()) + descriptors.last().len as nat
    }
}

/// Calls `next` of `virtio_queue::DescriptorChain` and takes address, length and flags from the
/// descriptor that it gives. An ended chain gives none and stays as it is; a descriptor that none
/// follows ends the chain. A descriptor is given only where the chain's count of bytes, with the
/// descriptor's length added, still fits 32 bits; the count is changed by that alone. The
/// descriptors are read from guest memory, so nothing more is promised of what comes, nor that
/// anything does; what did come is on record in `chain_gave`.
#[verifier::external_body]
fn next_descriptor(chain: &mut DescriptorChain<&GuestMemoryMmap>) -> (r: Option<Descriptor>)
    ensures
        chain_gave(*old(chain), r, *final(chain)),
        chain_ended(*old(chain)) ==> r is None && *final(chain) == *old(chain),
        match r {
            Some(d) => {
                &&& chain_bytes(*final(chain)) == chain_bytes(*old(chain)) + d.len
                &&& chain_bytes(*final(chain)) <= u32::MAX
                &&& !d.has_next ==> chain_ended(*final(chain))
            },
            None => chain_bytes(*final(chain)) == chain_bytes(*old(chain)),
        },
{
    match chain.next() {
        Some(d) => Some(
            Descriptor {
                addr: d.addr().0,
                len: d.len(),
                write_only: d.is_write_only(),
                has_next: d.has_next(),
            },
        ),
        None => None,
    }
}

/// Calls `vm_memory::GuestMemory::get_slice`, which finds the region that `addr` lies in and fails
/// if there is none or if `len` bytes from there on exceed that region. The slice itself is not
/// used.
#[verifier::external_body]
fn has_slice(mem: &GuestMemoryMmap, addr: u64, len: usize) -> (r: bool)
    ensures
        r == valid_range(guest_regions(*mem), addr, len as nat),
{
    mem.get_slice(GuestAddress(addr), len).is_ok()
}

/// Calls `vm_memory::Bytes::read_slice`, which fills a buffer from guest memory and fails only
/// where there is no memory. The bytes are what the guest left there: nothing is promised of them
/// but that this read gave them.
#[verifier::external_body]
fn read_slice(mem: &GuestMemoryMmap, addr: u64, len: usize) -> (r: Vec<u8>)
    requires
        valid_range(guest_regions(*mem), addr, len as nat),
    ensures
        r@.len() == len,
        guest_held(*mem, addr, r@),
{
    let mut bytes = vec![0u8; len];
    mem.read_slice(&mut bytes, GuestAddress(addr)).unwrap();
    bytes
}

/// The bytes at an absolute address in guest address space, if the provided size defines a valid
/// range within a single memory region. Which bytes these are is for the guest to say.
pub fn guest_bytes(mem: &GuestMemoryMmap, addr: u64, len: usize) -> (r: Option<Vec<u8>>)
    ensures
        r is Some <==> valid_range(guest_regions(*mem), addr, len as nat),
        r matches Some(bytes) ==> bytes@.len() == len && guest_held(*mem, addr, bytes@),
{
    if has_slice(mem, addr, len) {
        Some(read_slice(mem, addr, len))
    } else {
        None
    }
}

/// Whether a chain that gave `next` after `taken` descriptors is to be asked once more.
pub open spec fn goes_on(taken: nat, next: Option<Descriptor>, writable: bool) -> bool {
    next matches Some(d) && d.write_only == writable && taken + 1 < 2
}

/// A chain is asked once more exactly after a first descriptor of the right direction.
pub proof fn law_second_descriptor_is_wanted(taken: nat, d: Descriptor, writable: bool)
    ensures
        goes_on(0, Some(d), writable) <==> (d.write_only <==> writable),
        !goes_on(taken + 1, Some(d), writable),
        !goes_on(taken, None, writable),
{
}

/// Takes in what a chain gave next, and says whether the chain is to be asked once more: not after
/// its end, not after a descriptor that the device is not to use so (`writable` says whether it is
/// to write them), and not for more than two descriptors
pub fn add_descriptor(
    descriptors: &mut Vec<Descriptor>,
    next: Option<Descriptor>,
    writable: bool,
) -> (r: bool)
    ensures
        match next {
            Some(d) => final(descriptors)@ == old(descriptors)@.push(d),
            None => final(descriptors)@ == old(descriptors)@,
        },
        r == goes_on(old(descriptors)@.len(), next, writable),
{
    match next {
        Some(descriptor) => {
            descriptors.push(descriptor);
            descriptor.write_only == writable && descriptors.len() < 2
        },
        None => false,
    }
}

/// The chain `before`, asked again and again, has given `d` and become `after`.
pub open spec fn gave_all(
    before: DescriptorChain<&GuestMemoryMmap>,
    d: Seq<Descriptor>,
    after: DescriptorChain<&GuestMemoryMmap>,
) -> bool
    decreases d.len(),
{
    if d.len() == 0 {
        after == before
    } else {
        exists|mid: DescriptorChain<&GuestMemoryMmap>| #[trigger]
            chain_gave(mid, Some(d.last()), after) && gave_all(before, d.drop_last(), mid)
    }
}

/// The chain `before` has been asked for the descriptors of a packet, has given `d` and become
/// `after`: it is asked until it gives none, or one of the wrong direction, or the second.
pub open spec fn asked(
    before: DescriptorChain<&GuestMemoryMmap>,
    after: DescriptorChain<&GuestMemoryMmap>,
    d: Seq<Descriptor>,
    writable: bool,
) -> bool {
    &&& d.len() <= 2
    &&& d.len() == 2 ==> d[0].write_only == writable
    &&& if d.len() == 2 || (d.len() == 1 && d[0].write_only != writable) {
        gave_all(before, d, after)
    } else {
        exists|mid: DescriptorChain<&GuestMemoryMmap>| #[trigger]
            chain_gave(mid, None, after) && gave_all(before, d, mid)
    }
}

/// What a chain shows of having given `d`: an ended one gives none, and none comes after one that
/// says so. What was given is what the chain counts as handed out.
pub open spec fn consistent(
    before: DescriptorChain<&GuestMemoryMmap>,
    after: DescriptorChain<&GuestMemoryMmap>,
    d: Seq<Descriptor>,
) -> bool {
    &&& d.len() == 2 ==> d[0].has_next
    &&& chain_ended(before) ==> d.len() == 0 && after == before
    &&& d.len() > 0 && !d.last().has_next ==> chain_ended(after)
    &&& chain_bytes(after) == chain_bytes(before) + total_len(d)
    &&& d.len() > 0 ==> chain_bytes(after) <= u32::MAX
}

/// The chain `before` has been asked for the descriptors of a packet, has given `d` and become
/// `after`, as a chain does.
pub open spec fn handed_out(
    before: DescriptorChain<&GuestMemoryMmap>,
    after: DescriptorChain<&GuestMemoryMmap>,
    d: Seq<Descriptor>,
    writable: bool,
) -> bool {
    &&& asked(before, after, d, writable)
    &&& consistent(before, after, d)
}

/// A packet's descriptors are the first that the chain gave, in their order, and none was left out:
/// two; or one, if the chain gave no second or the first is of the wrong direction; or none, if it
/// gave none.
pub proof fn law_descriptors_in_order(
    before: DescriptorChain<&GuestMemoryMmap>,
    after: DescriptorChain<&GuestMemoryMmap>,
    d: Seq<Descriptor>,
    writable: bool,
)
    requires
        handed_out(before, after, d, writable),
    ensures
        d.len() <= 2,
        d.len() == 0 ==> chain_gave(before, None, after),
        d.len() == 1 && d[0].write_only != writable ==> chain_gave(before, Some(d[0]), after),
        d.len() == 1 && d[0].write_only == writable ==> exists|mid: DescriptorChain<
            &GuestMemoryMmap,
        >|
            #![trigger chain_gave(mid, None, after)]
            chain_gave(before, Some(d[0]), mid) && chain_gave(mid, None, after),
        d.len() == 2 ==> d[0].write_only == writable && exists|mid: DescriptorChain<
            &GuestMemoryMmap,
        >|
            #![trigger chain_gave(mid, Some(d[1]), after)]
            chain_gave(before, Some(d[0]), mid) && chain_gave(mid, Some(d[1]), after),
{
    reveal_with_fuel(gave_all, 3);
    if d.len() > 0 {
        assert(d.drop_last().len() == d.len() - 1);
    }
}

/// The first descriptors of a chain, two at most: a packet has no more. The chain is asked no
/// further than the first descriptor that the device is not to use so; `writable` says whether it
/// is to write them. Beyond what is stated, it is for the guest to say which descriptors these are
/// and whether there are any.
pub fn packet_descriptors(
    chain: &mut DescriptorChain<&GuestMemoryMmap>,
    writable: bool,
) -> (r: Vec<Descriptor>)
    ensures
        handed_out(*old(chain), *final(chain), r@, writable),
{
    let mut descriptors: Vec<Descriptor> = Vec::new();
    let mut more = true;
    while more
        invariant
            more ==> {
                &&& descriptors@.len() < 2
                &&& descriptors@.len() > 0 ==> descriptors@[0].write_only == writable
                &&& gave_all(*old(chain), descriptors@, *chain)
            },
            !more ==> asked(*old(chain), *chain, descriptors@, writable),
            consistent(*old(chain), *chain, descriptors@),
            descriptors@.len() <= 2,
        decreases 2 - descriptors@.len(), if more { 1int } else { 0int },
    {
        let ghost before = descriptors@;
        let ghost mid = *chain;
        let next = next_descriptor(chain);
        more = add_descriptor(&mut descriptors, next, writable);
        proof {
            assert(chain_gave(mid, next, *chain));
            if next is Some {
                assert(descriptors@.drop_last() =~= before);
                assert(chain_gave(mid, Some(descriptors@.last()), *chain));
                assert(gave_all(*old(chain), descriptors@, *chain));
            }
        }
    }
    descriptors
}

} // verus!
