use vhost_user_vsock::rxops::RxOps;
use vhost_user_vsock::rxqueue::RxQueue;

#[test]
fn test_contains() {
    let mut rxqueue = RxQueue::new();
    rxqueue.queue = 31;

    assert_eq!(rxqueue.contains(RxOps::Request.bitmask()), true);
    assert_eq!(rxqueue.contains(RxOps::Rw.bitmask()), true);
    assert_eq!(rxqueue.contains(RxOps::Response.bitmask()), true);
    assert_eq!(rxqueue.contains(RxOps::CreditUpdate.bitmask()), true);
    assert_eq!(rxqueue.contains(RxOps::Rst.bitmask()), true);

    rxqueue.queue = 0;
    assert_eq!(rxqueue.contains(RxOps::Request.bitmask()), false);
    assert_eq!(rxqueue.contains(RxOps::Rw.bitmask()), false);
    assert_eq!(rxqueue.contains(RxOps::Response.bitmask()), false);
    assert_eq!(rxqueue.contains(RxOps::CreditUpdate.bitmask()), false);
    assert_eq!(rxqueue.contains(RxOps::Rst.bitmask()), false);
}

#[test]
fn test_enqueue() {
    let mut rxqueue = RxQueue::new();

    rxqueue.enqueue(RxOps::Request);
    assert_eq!(rxqueue.contains(RxOps::Request.bitmask()), true);

    rxqueue.enqueue(RxOps::Rw);
    assert_eq!(rxqueue.contains(RxOps::Rw.bitmask()), true);

    rxqueue.enqueue(RxOps::Response);
    assert_eq!(rxqueue.contains(RxOps::Response.bitmask()), true);

    rxqueue.enqueue(RxOps::CreditUpdate);
    assert_eq!(rxqueue.contains(RxOps::CreditUpdate.bitmask()), true);

    rxqueue.enqueue(RxOps::Rst);
    assert_eq!(rxqueue.contains(RxOps::Rst.bitmask()), true);
}

#[test]
fn test_peek() {
    let mut rxqueue = RxQueue::new();

    rxqueue.queue = 31;
    assert_eq!(rxqueue.peek(), Some(RxOps::Request));

    rxqueue.queue = 30;
    assert_eq!(rxqueue.peek(), Some(RxOps::Rw));

    rxqueue.queue = 28;
    assert_eq!(rxqueue.peek(), Some(RxOps::Response));

    rxqueue.queue = 24;
    assert_eq!(rxqueue.peek(), Some(RxOps::CreditUpdate));

    rxqueue.queue = 16;
    assert_eq!(rxqueue.peek(), Some(RxOps::Rst));
}

#[test]
fn test_dequeue() {
    let mut rxqueue = RxQueue::new();
    rxqueue.queue = 31;

    assert_eq!(rxqueue.dequeue(), Some(RxOps::Request));
    assert_eq!(rxqueue.contains(RxOps::Request.bitmask()), false);

    assert_eq!(rxqueue.dequeue(), Some(RxOps::Rw));
    assert_eq!(rxqueue.contains(RxOps::Rw.bitmask()), false);

    assert_eq!(rxqueue.dequeue(), Some(RxOps::Response));
    assert_eq!(rxqueue.contains(RxOps::Response.bitmask()), false);

    assert_eq!(rxqueue.dequeue(), Some(RxOps::CreditUpdate));
    assert_eq!(rxqueue.contains(RxOps::CreditUpdate.bitmask()), false);

    assert_eq!(rxqueue.dequeue(), Some(RxOps::Rst));
    assert_eq!(rxqueue.contains(RxOps::Rst.bitmask()), false);
}

#[test]
fn test_pending_rx() {
    let mut rxqueue = RxQueue::new();
    assert_eq!(rxqueue.pending_rx(), false);

    rxqueue.queue = 1;
    assert_eq!(rxqueue.pending_rx(), true);
}

#[test]
fn bitmask_values() {
    assert_eq!(RxOps::Request.bitmask(), 1);
    assert_eq!(RxOps::Rw.bitmask(), 2);
    assert_eq!(RxOps::Response.bitmask(), 4);
    assert_eq!(RxOps::CreditUpdate.bitmask(), 8);
    assert_eq!(RxOps::Rst.bitmask(), 16);
}

#[test]
fn enqueue_is_idempotent_and_order_does_not_matter() {
    let mut a = RxQueue::new();
    a.enqueue(RxOps::Rst);
    a.enqueue(RxOps::Rw);
    a.enqueue(RxOps::Rw);
    let mut b = RxQueue::new();
    b.enqueue(RxOps::Rw);
    b.enqueue(RxOps::Rst);
    assert_eq!(a, b);
    assert_eq!(a.queue, 18);
}

#[test]
fn dequeue_serves_each_operation_once_in_order() {
    let mut q = RxQueue::new();
    q.enqueue(RxOps::Rst);
    q.enqueue(RxOps::CreditUpdate);
    q.enqueue(RxOps::Request);
    assert_eq!(q.dequeue(), Some(RxOps::Request));
    assert_eq!(q.dequeue(), Some(RxOps::CreditUpdate));
    assert_eq!(q.dequeue(), Some(RxOps::Rst));
    assert_eq!(q.dequeue(), None);
    assert_eq!(q.peek(), None);
    assert!(!q.pending_rx());
}

#[test]
fn spare_bits_are_pending_but_hold_no_operation() {
    let q = RxQueue { queue: 0x20 };
    assert!(q.pending_rx());
    assert_eq!(q.peek(), None);
}
