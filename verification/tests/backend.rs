use vhost_user_vsock::backend::Stage;
use vhost_user_vsock::backend::VhostUserVsockBackend;
use vhost_user_vsock::backend::BACKEND_EVENT;
use vhost_user_vsock::backend::EVT_QUEUE_EVENT;
use vhost_user_vsock::backend::RX_QUEUE_EVENT;
use vhost_user_vsock::backend::TX_QUEUE_EVENT;
use vhost_user_vsock::error::Error;
use vhost_user_vsock::thread::Readiness;

/// All stages of the answer to an event, where something is pending or not throughout.
fn stages(event: u16, pending: bool) -> Vec<Stage> {
    let backend = VhostUserVsockBackend::new(3);
    let mut stages = Vec::new();
    let mut stage = backend.handle_event(event, Readiness::Readable, pending).unwrap();
    while stage != Stage::Done {
        stages.push(stage);
        stage = backend.next_stage(stage, pending);
    }
    stages
}

#[test]
fn what_the_device_offers() {
    let backend = VhostUserVsockBackend::new(0x0102_0304_0506_0708);
    assert_eq!(backend.num_queues(), 2);
    assert_eq!(backend.max_queue_size(), 256);
    assert_eq!(backend.features(), 1 << 32 | 1 << 24 | 1 << 29 | 1 << 30);
    assert_eq!(backend.features(), 0x1_6100_0000);
    assert_eq!(backend.protocol_features(), 0x200);
    assert_eq!(backend.queues_per_thread(), vec![0b11]);
    assert_eq!(
        backend.get_config(0, 8),
        0x0102_0304_0506_0708u64.to_ne_bytes().to_vec()
    );
    assert_eq!(backend.get_config(4, 1).len(), 8);
}

#[test]
fn stages_of_each_event() {
    assert_eq!(stages(RX_QUEUE_EVENT, true), vec![Stage::Rx]);
    assert_eq!(stages(RX_QUEUE_EVENT, false), vec![]);
    assert_eq!(stages(TX_QUEUE_EVENT, true), vec![Stage::Tx, Stage::Rx]);
    assert_eq!(stages(TX_QUEUE_EVENT, false), vec![Stage::Tx]);
    assert_eq!(stages(EVT_QUEUE_EVENT, true), vec![]);
    assert_eq!(stages(BACKEND_EVENT, true), vec![Stage::Backend, Stage::Tx, Stage::Rx]);
    assert_eq!(stages(BACKEND_EVENT, false), vec![Stage::Backend, Stage::Tx]);
}

#[test]
fn events_that_are_refused() {
    let backend = VhostUserVsockBackend::new(3);
    for evset in [Readiness::Writable, Readiness::Other] {
        assert!(matches!(
            backend.handle_event(RX_QUEUE_EVENT, evset, true),
            Err(Error::HandleEventNotEpollIn)
        ));
        assert!(matches!(
            backend.handle_event(77, evset, true),
            Err(Error::HandleEventNotEpollIn)
        ));
    }
    assert!(matches!(
        backend.handle_event(4, Readiness::Readable, true),
        Err(Error::HandleUnknownEvent)
    ));
}
