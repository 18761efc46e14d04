//! What the device offers to the hypervisor, and how it answers device events.

use vstd::prelude::*;

use crate::error::Error;
use crate::thread::Readiness;
use crate::wire;

verus! {

/// Number of queues of the device
pub const NUM_QUEUES: usize = 2;

/// Largest size of a queue
pub const QUEUE_SIZE: usize = 256;

/// New descriptors pending on the rx queue
pub const RX_QUEUE_EVENT: u16 = 0;

/// New descriptors are pending on the tx queue.
pub const TX_QUEUE_EVENT: u16 = 1;

/// New descriptors are pending on the event queue.
pub const EVT_QUEUE_EVENT: u16 = 2;

/// Notification coming from the backend.
pub const BACKEND_EVENT: u16 = 3;

/// Reads the constant `virtio_bindings::virtio_config::VIRTIO_F_VERSION_1`, a feature's bit number:
/// 32.
#[verifier::external_body]
fn version_1_bit() -> (r: u32)
    ensures
        r == 32,
{
    virtio_bindings::virtio_config::VIRTIO_F_VERSION_1
}

/// Reads the constant `virtio_bindings::virtio_config::VIRTIO_F_NOTIFY_ON_EMPTY`, a feature's bit
/// number: 24.
#[verifier::external_body]
fn notify_on_empty_bit() -> (r: u32)
    ensures
        r == 24,
{
    virtio_bindings::virtio_config::VIRTIO_F_NOTIFY_ON_EMPTY
}

/// Reads the constant `virtio_bindings::virtio_ring::VIRTIO_RING_F_EVENT_IDX`, a feature's bit
/// number: 29.
#[verifier::external_body]
fn event_idx_bit() -> (r: u32)
    ensures
        r == 29,
{
    virtio_bindings::virtio_ring::VIRTIO_RING_F_EVENT_IDX
}

/// Reads the bits of the constant `PROTOCOL_FEATURES` of `vhost`'s `VhostUserVirtioFeatures`: bit
/// 30 alone.
#[verifier::external_body]
fn protocol_features_bits() -> (r: u64)
    ensures
        r == 0x4000_0000,
{
    vhost::vhost_user::message::VhostUserVirtioFeatures::PROTOCOL_FEATURES.bits()
}

/// Reads the bits of the constant `CONFIG` of `vhost`'s `VhostUserProtocolFeatures`: bit 9 alone.
#[verifier::external_body]
fn config_bits() -> (r: u64)
    ensures
        r == 0x200,
{
    vhost::vhost_user::message::VhostUserProtocolFeatures::CONFIG.bits()
}

/// A part of the answer to a device event.
#[derive(Debug, Clone, Copy, PartialEq, Eq, Structural)]
pub enum Stage {
    /// Process the events on the polled descriptors
    Backend,
    /// Drain the tx queue
    Tx,
    /// Drain the rx queue
    Rx,
    /// Nothing is left to do
    Done,
}

impl Stage {
    /// How many stages can follow.
    pub open spec fn rank(self) -> nat {
        match self {
            Stage::Backend => 3,
            Stage::Tx => 2,
            Stage::Rx => 1,
            Stage::Done => 0,
        }
    }

    /// The stage that follows, where something is `pending` for the guest or not.
    pub open spec fn after(self, pending: bool) -> Stage {
        match self {
            Stage::Backend => Stage::Tx,
            Stage::Tx => if pending { Stage::Rx } else { Stage::Done },
            Stage::Rx => Stage::Done,
            Stage::Done => Stage::Done,
        }
    }
}

/// The configuration of a device for the guest with this CID.
pub open spec fn config_space(guest_cid: u64) -> Seq<u8> {
    match vstd::endian::endianness() {
        vstd::endian::Endian::Little => wire::le_bytes(guest_cid as nat, 8),
        vstd::endian::Endian::Big => wire::le_bytes(guest_cid as nat, 8).reverse(),
    }
}

/// The configuration has eight bytes that spell the CID of the guest, in the machine's order.
pub proof fn law_config_spells_cid(guest_cid: u64)
    ensures
        config_space(guest_cid).len() == 8,
        vstd::endian::endianness() == vstd::endian::Endian::Little ==> wire::le_value(
            config_space(guest_cid),
        ) == guest_cid,
        vstd::endian::endianness() == vstd::endian::Endian::Big ==> wire::le_value(
            config_space(guest_cid).reverse(),
        ) == guest_cid,
{
    wire::lemma_le_limits();
    let bytes = wire::le_bytes(guest_cid as nat, 8);
    wire::law_le_round_trip(guest_cid as nat, 8);
    assert(bytes.reverse().reverse() =~= bytes);
}

/// The first stage of the answer to a device event, where something is `pending` for the guest or
/// not.
pub open spec fn first_stage(device_event: u16, evset: Readiness, pending: bool) -> Result<
    Stage,
    Error,
> {
    if evset != Readiness::Readable {
        Err(Error::HandleEventNotEpollIn)
    } else if device_event == RX_QUEUE_EVENT {
        Ok(if pending { Stage::Rx } else { Stage::Done })
    } else if device_event == TX_QUEUE_EVENT {
        Ok(Stage::Tx)
    } else if device_event == EVT_QUEUE_EVENT {
        Ok(Stage::Done)
    } else if device_event == BACKEND_EVENT {
        Ok(Stage::Backend)
    } else {
        Err(Error::HandleUnknownEvent)
    }
}

/// A device event is answered exactly if it comes as readable and is one of the four known ones. If
/// anything is pending for the guest, the answer to any of them but one on the event queue goes on
/// to the rx queue; the tx queue is drained on its own event and on a backend event, whatever is
/// pending.
pub proof fn law_events_are_answered(device_event: u16, evset: Readiness, pending: bool)
    ensures
        ({
            let first = first_stage(device_event, evset, pending);
            &&& first is Ok <==> evset is Readable && device_event <= 3
            &&& !(evset is Readable) ==> first == Err::<Stage, Error>(Error::HandleEventNotEpollIn)
            &&& evset is Readable && device_event > 3 ==> first == Err::<Stage, Error>(
                Error::HandleUnknownEvent,
            )
            &&& first matches Ok(stage) ==> {
                &&& device_event == 0 && pending ==> stage is Rx
                &&& device_event == 0 && !pending ==> stage is Done
                &&& device_event == 1 ==> stage is Tx
                &&& device_event == 2 ==> stage is Done
                &&& device_event == 3 ==> stage is Backend
            }
        }),
{
}

/// The polled descriptors are processed before the tx queue is drained, and the tx queue before the
/// rx queue, which is left out exactly if nothing is pending for the guest by then.
pub proof fn law_stages_in_order(before_tx: bool, before_rx: bool)
    ensures
        Stage::Backend.after(before_tx) is Tx,
        before_rx ==> Stage::Tx.after(before_rx) is Rx,
        !before_rx ==> Stage::Tx.after(before_rx) is Done,
        Stage::Rx.after(before_rx) is Done,
{
}

/// Every answer to a device event comes to an end, and the rx queue is touched only while something
/// is pending for the guest.
pub proof fn law_stages_end(stage: Stage, pending: bool)
    ensures
        stage is Done || stage.after(pending).rank() < stage.rank(),
        stage.after(pending) is Rx ==> pending,
{
}

/// The device, as the hypervisor sees it.
#[derive(Debug)]
pub struct VhostUserVsockBackend {
    /// CID of the guest
    pub guest_cid: u64,
    /// For each worker thread the mask of queues that it serves
    pub queues_per_thread: Vec<u64>,
}

impl VhostUserVsockBackend {
    /// A device with one worker thread, which serves both queues
    pub fn new(guest_cid: u64) -> (r: Self)
        ensures
            r.guest_cid == guest_cid,
            r.queues_per_thread@ == seq![3u64],
    {
        let mut queues_per_thread: Vec<u64> = Vec::new();
        queues_per_thread.push(0b11);
        VhostUserVsockBackend { guest_cid, queues_per_thread }
    }

    /// Number of queues
    pub fn num_queues(&self) -> (r: usize)
        ensures
            r == NUM_QUEUES,
    {
        NUM_QUEUES
    }

    /// Largest size of a queue
    pub fn max_queue_size(&self) -> (r: usize)
        ensures
            r == QUEUE_SIZE,
    {
        QUEUE_SIZE
    }

    /// The features offered: version 1, notification on empty, event indices and vhost-user
    /// protocol features
    pub fn features(&self) -> (r: u64)
        ensures
            r == 0x1_6100_0000,
            r == 1u64 << 32 | 1u64 << 24 | 1u64 << 29 | 1u64 << 30,
    {
        assert(1u64 << 32u32 | 1u64 << 24u32 | 1u64 << 29u32 | 0x4000_0000u64 == 0x1_6100_0000u64)
            by (bit_vector);
        assert(1u64 << 32 | 1u64 << 24 | 1u64 << 29 | 1u64 << 30 == 0x1_6100_0000u64)
            by (bit_vector);
        1u64 << version_1_bit() | 1u64 << notify_on_empty_bit() | 1u64 << event_idx_bit()
            | protocol_features_bits()
    }

    /// The vhost-user protocol features offered: reading the configuration
    pub fn protocol_features(&self) -> (r: u64)
        ensures
            r == 0x200,
    {
        config_bits()
    }

    /// The configuration: the CID of the guest, whatever part is asked for
    pub fn get_config(&self, _offset: u32, _size: u32) -> (r: Vec<u8>)
        ensures
            r@ == config_space(self.guest_cid),
    {
        wire::native_bytes(self.guest_cid)
    }

    /// For each worker thread the mask of queues that it serves
    pub fn queues_per_thread(&self) -> (r: Vec<u64>)
        ensures
            r@ == self.queues_per_thread@,
    {
        self.queues_per_thread.clone()
    }

    /// The first stage of the answer to a device event, where something is `pending` for the guest
    /// or not
    pub fn handle_event(&self, device_event: u16, evset: Readiness, pending: bool) -> (r: Result<
        Stage,
        Error,
    >)
        ensures
            r == first_stage(device_event, evset, pending),
    {
        if evset != Readiness::Readable {
            return Err(Error::HandleEventNotEpollIn);
        }
        if device_event == RX_QUEUE_EVENT {
            if pending {
                Ok(Stage::Rx)
            } else {
                Ok(Stage::Done)
            }
        } else if device_event == TX_QUEUE_EVENT {
            Ok(Stage::Tx)
        } else if device_event == EVT_QUEUE_EVENT {
            Ok(Stage::Done)
        } else if device_event == BACKEND_EVENT {
            Ok(Stage::Backend)
        } else {
            Err(Error::HandleUnknownEvent)
        }
    }

    /// The stage of the answer that follows
    pub fn next_stage(&self, stage: Stage, pending: bool) -> (r: Stage)
        ensures
            r == stage.after(pending),
    {
        match stage {
            Stage::Backend => Stage::Tx,
            Stage::Tx => if pending {
                Stage::Rx
            } else {
                Stage::Done
            },
            Stage::Rx | Stage::Done => Stage::Done,
        }
    }
}

} // verus!
