use vhost_user_vsock::error::Error;
use vhost_user_vsock::txbuf::FlushStep;
use vhost_user_vsock::txbuf::LocalTxBuf;
use vhost_user_vsock::txbuf::CONN_TX_BUF_SIZE;

const CAP: usize = CONN_TX_BUF_SIZE as usize;

/// Lets a stream that takes all it is offered empty the buffer, and gives the writes that it saw.
fn flush_all(tx: &mut LocalTxBuf) -> (Vec<Vec<u8>>, usize) {
    let mut writes = Vec::new();
    let mut step = tx.flush_start();
    loop {
        match step {
            FlushStep::More(flushed) => {
                let chunk = tx.flush_chunk().to_vec();
                let n = chunk.len();
                writes.push(chunk);
                step = tx.flush_to(flushed, Some(n));
            }
            FlushStep::Done(flushed) => return (writes, flushed),
            FlushStep::Failed => panic!("the stream never fails"),
        }
    }
}

#[test]
fn new_buffer_is_empty() {
    let tx = LocalTxBuf::new();
    assert!(tx.is_empty());
    assert_eq!(tx.len(), 0);
    assert_eq!(tx.flush_start(), FlushStep::Done(0));
    assert_eq!(tx.flush_chunk().len(), 0);
}

#[test]
fn push_all_or_none() {
    let mut tx = LocalTxBuf::new();
    assert!(tx.push(&vec![1; CAP - 1]).is_ok());
    assert!(matches!(tx.push(&[2, 3]), Err(Error::LocalTxBufFull)));
    assert_eq!(tx.len(), CAP - 1);
    assert!(tx.push(&[4]).is_ok());
    assert_eq!(tx.len(), CAP);
    assert!(matches!(tx.push(&[5]), Err(Error::LocalTxBufFull)));
    assert!(tx.push(&[]).is_ok());
    let (writes, flushed) = flush_all(&mut tx);
    assert_eq!(flushed, CAP);
    assert_eq!(writes.len(), 1);
    assert_eq!(writes[0][CAP - 1], 4);
    assert!(tx.is_empty());
}

#[test]
fn a_push_larger_than_the_buffer_is_refused() {
    let mut tx = LocalTxBuf::new();
    assert!(matches!(tx.push(&vec![0; CAP + 1]), Err(Error::LocalTxBufFull)));
    assert!(tx.is_empty());
}

#[test]
fn wrapped_data_takes_two_writes() {
    let mut tx = LocalTxBuf::new();
    tx.push(&vec![0; CAP - 2]).unwrap();
    flush_all(&mut tx);
    tx.push(&[1, 2, 3, 4, 5]).unwrap();
    assert_eq!(tx.flush_chunk(), &[1, 2]);
    let (writes, flushed) = flush_all(&mut tx);
    assert_eq!(writes, vec![vec![1, 2], vec![3, 4, 5]]);
    assert_eq!(flushed, 5);
    assert!(tx.is_empty());
}

#[test]
fn a_short_write_ends_the_flush() {
    let mut tx = LocalTxBuf::new();
    tx.push(&[1, 2, 3, 4]).unwrap();
    assert_eq!(tx.flush_start(), FlushStep::More(0));
    assert_eq!(tx.flush_to(0, Some(3)), FlushStep::Done(3));
    assert_eq!(tx.len(), 1);
    assert_eq!(tx.flush_chunk(), &[4]);
}

#[test]
fn only_a_first_failure_fails_the_flush() {
    let mut tx = LocalTxBuf::new();
    tx.push(&vec![0; CAP - 1]).unwrap();
    flush_all(&mut tx);
    tx.push(&[1, 2, 3]).unwrap();
    assert_eq!(tx.flush_to(0, None), FlushStep::Failed);
    assert_eq!(tx.len(), 3);
    assert_eq!(tx.flush_to(0, Some(1)), FlushStep::More(1));
    assert_eq!(tx.flush_to(1, None), FlushStep::Done(1));
    assert_eq!(tx.len(), 2);
    assert_eq!(tx.flush_chunk(), &[2, 3]);
}

#[test]
fn no_byte_is_lost_or_reordered() {
    let mut tx = LocalTxBuf::new();
    let mut pushed: Vec<u8> = Vec::new();
    let mut taken: Vec<u8> = Vec::new();
    for round in 0..200usize {
        let data: Vec<u8> = (0..(round * 37) % 1500).map(|i| (i + round) as u8).collect();
        if tx.push(&data).is_ok() {
            pushed.extend_from_slice(&data);
        }
        if !tx.is_empty() {
            let n = tx.flush_chunk().len() * (round % 5) / 4;
            taken.extend_from_slice(&tx.flush_chunk()[..n]);
            tx.flush_to(0, Some(n));
        }
    }
    while !tx.is_empty() {
        let n = tx.flush_chunk().len();
        taken.extend_from_slice(&tx.flush_chunk()[..n]);
        tx.flush_to(0, Some(n));
    }
    assert_eq!(taken, pushed);
}
