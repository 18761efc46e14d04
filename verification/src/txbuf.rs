//! The ring buffer that holds guest data until the host-side stream takes it.

use vstd::prelude::*;

use crate::error::Error;

verus! {

/// Vsock connection TX buffer capacity.
pub const CONN_TX_BUF_SIZE: u32 = 65536;

/// `a - b` for counters that run modulo 2^32.
pub open spec fn counter_distance(a: u32, b: u32) -> nat {
    ((a - b) % 0x1_0000_0000) as nat
}

/// The distance between two counters is what takes one to the other, around modulo 2^32.
pub proof fn lemma_counter_distance(a: u32, b: u32)
    ensures
        counter_distance(a, b) < 0x1_0000_0000,
        (b + counter_distance(a, b)) % 0x1_0000_0000 == a,
        a == b ==> counter_distance(a, b) == 0,
{
    let m: int = 0x1_0000_0000;
    let k = (a - b) / m;
    assert(a - b == m * k + counter_distance(a, b));
    assert((-k) * m == -(m * k)) by (nonlinear_arith);
    vstd::arithmetic::div_mod::lemma_fundamental_div_mod_converse(
        b + counter_distance(a, b),
        m,
        -k,
        a as int,
    );
}

/// A counter that runs modulo 2^32 gets ahead of another by as much as it advances.
pub proof fn lemma_counter_advances(a: u32, b: u32, n: nat)
    requires
        counter_distance(a, b) + n < 0x1_0000_0000,
    ensures
        counter_distance(((a + n) % 0x1_0000_0000) as u32, b) == counter_distance(a, b) + n,
{
    let m: int = 0x1_0000_0000;
    let moved = (a + n) % m;
    let k = (a - b) / m;
    let q = (a + n) / m;
    let ahead = counter_distance(a, b) + n;
    assert(a - b == m * k + counter_distance(a, b));
    assert(a + n == m * q + moved);
    assert((k - q) * m == m * k - m * q) by (nonlinear_arith);
    vstd::arithmetic::div_mod::lemma_fundamental_div_mod_converse(
        moved - b,
        m,
        k - q,
        ahead as int,
    );
}

/// A counter that runs modulo 2^32 falls behind another by as much as that advances.
pub proof fn lemma_counter_catches_up(a: u32, b: u32, n: nat)
    requires
        n <= counter_distance(a, b),
    ensures
        counter_distance(a, ((b + n) % 0x1_0000_0000) as u32) == counter_distance(a, b) - n,
{
    let m: int = 0x1_0000_0000;
    let moved = (b + n) % m;
    let k = (a - b) / m;
    let q = (b + n) / m;
    let left = counter_distance(a, b) - n;
    assert(a - b == m * k + counter_distance(a, b));
    assert(b + n == m * q + moved);
    assert((k + q) * m == m * k + m * q) by (nonlinear_arith);
    vstd::arithmetic::div_mod::lemma_fundamental_div_mod_converse(a - moved, m, k + q, left);
}

/// Bytes waiting to be forwarded to a host-side application.
///
/// Seen from outside it is a bounded first-in first-out queue of bytes. `head` and `tail` count
/// the bytes ever taken out and ever put in, modulo 2^32; their remainders by the capacity are
/// the positions in `buf`.
#[derive(Debug, Clone)]
pub struct LocalTxBuf {
    /// Buffer holding data to be forwarded to a host-side application
    buf: Vec<u8>,
    /// Index into buffer from which data can be consumed from the buffer
    head: u32,
    /// Index into buffer from which data can be added to the buffer
    tail: u32,
}

/// The bytes held: position `i` of the queue lies at `head + i` around the ring.
pub open spec fn ring_contents(buf: Seq<u8>, head: u32, tail: u32) -> Seq<u8> {
    Seq::new(
        counter_distance(tail, head),
        |i: int| buf[(head + i) % (CONN_TX_BUF_SIZE as int)],
    )
}

/// How many of `held` bytes lie in one run from `head_index` on: all of them, up to the end of the
/// ring.
pub open spec fn run_len(held: nat, head_index: nat) -> nat {
    let to_end = (CONN_TX_BUF_SIZE - head_index) as nat;
    if held <= to_end { held } else { to_end }
}

impl View for LocalTxBuf {
    type V = Seq<u8>;

    closed spec fn view(&self) -> Seq<u8> {
        ring_contents(self.buf@, self.head, self.tail)
    }
}

/// What to do after a write of [`LocalTxBuf::flush_chunk`] to the stream.
#[derive(Debug, Clone, Copy, PartialEq, Eq, Structural)]
pub enum FlushStep {
    /// Write the next chunk; this many bytes have been flushed so far
    More(usize),
    /// The flush is over; this many bytes were flushed
    Done(usize),
    /// The first write failed: nothing was flushed
    Failed,
}

/// What a flush begins with, where this many bytes are held.
pub open spec fn flush_begin(held: nat) -> FlushStep {
    if held == 0 {
        FlushStep::Done(0)
    } else {
        FlushStep::More(0)
    }
}

/// What to do after a write of `chunk` of the `held` bytes, of which this many were accepted, where
/// `flushed` had been before.
pub open spec fn flush_step(
    held: nat,
    chunk: nat,
    flushed: usize,
    accepted: Option<usize>,
) -> FlushStep {
    match accepted {
        Some(n) => if n == chunk && n < held {
            FlushStep::More((flushed + n) as usize)
        } else {
            FlushStep::Done((flushed + n) as usize)
        },
        None => if flushed == 0 {
            FlushStep::Failed
        } else {
            FlushStep::Done(flushed)
        },
    }
}

/// A flush writes wherever anything is held, and goes on until nothing is or the stream takes less
/// than it is offered. It tells how many bytes the stream took in all, also where a later write
/// fails; only a failure of the first write is one of the flush.
pub proof fn law_flush_goes_on(held: nat, chunk: nat, flushed: usize, n: usize)
    requires
        n <= chunk <= held,
        flushed + held <= 65536,
    ensures
        flush_begin(held) == FlushStep::More(0) <==> held > 0,
        flush_begin(held) == FlushStep::Done(0) <==> held == 0,
        n < chunk || n == held ==> flush_step(held, chunk, flushed, Some(n)) == FlushStep::Done(
            (flushed + n) as usize,
        ),
        n == chunk && n < held ==> flush_step(held, chunk, flushed, Some(n)) == FlushStep::More(
            (flushed + n) as usize,
        ),
        flushed == 0 ==> flush_step(held, chunk, flushed, None) is Failed,
        flushed > 0 ==> flush_step(held, chunk, flushed, None) == FlushStep::Done(flushed),
{
}

/// A chunk is all that is held, or all up to the end of the ring, whichever is less.
pub proof fn law_chunk(held: nat, head_index: nat)
    requires
        head_index < 65536,
    ensures
        run_len(held, head_index) <= held,
        head_index + run_len(held, head_index) <= 65536,
        run_len(held, head_index) == held || head_index + run_len(held, head_index) == 65536,
{
}

/// Copies `len` bytes of `data`, from `from` on, over those of `buf` from `at` on.
fn copy_bytes(buf: &mut Vec<u8>, at: usize, data: &[u8], from: usize, len: usize)
    requires
        at + len <= old(buf)@.len(),
        from + len <= data@.len(),
    ensures
        final(buf)@ == old(buf)@.take(at as int) + data@.subrange(from as int, from + len)
            + old(buf)@.skip(at + len),
{
    let ghost before = buf@;
    let mut i: usize = 0;
    while i < len
        invariant
            i <= len,
            at + len <= buf.len(),
            from + len <= data.len(),
            buf@.len() == before.len(),
            forall|k: int|
                0 <= k < before.len() ==> #[trigger] buf@[k] == if at <= k < at + i {
                    data@[from + k - at]
                } else {
                    before[k]
                },
        decreases len - i,
    {
        buf[at + i] = data[from + i];
        i = i + 1;
    }
    assert(buf@ =~= before.take(at as int) + data@.subrange(from as int, from + len) + before.skip(
        at + len,
    ));
}

/// Advancing a counter that runs modulo 2^32 advances the ring position with it, since the
/// capacity divides 2^32.
proof fn lemma_ring_position(start: u32, n: int, moved: u32)
    requires
        0 <= n,
        moved == (start + n) % 0x1_0000_0000,
    ensures
        moved % CONN_TX_BUF_SIZE == (start + n) % (CONN_TX_BUF_SIZE as int),
        forall|k: int|
            #![trigger (moved + k) % (CONN_TX_BUF_SIZE as int)]
            (moved + k) % (CONN_TX_BUF_SIZE as int) == (start + n + k) % (CONN_TX_BUF_SIZE as int),
{
    let q = (start + n) / 0x1_0000_0000;
    assert(start + n == moved + 0x1_0000_0000 * q);
    assert forall|k: int|
        #![trigger (moved + k) % (CONN_TX_BUF_SIZE as int)]
        (moved + k) % (CONN_TX_BUF_SIZE as int) == (start + n + k) % (CONN_TX_BUF_SIZE as int) by {
        assert(start + n + k == (moved + k) + 65536 * (65536 * q));
    }
    assert(start + n == moved + 65536 * (65536 * q));
}

/// Around the ring, position `i` of the queue lies `i - held` past the tail.
proof fn lemma_distance_from_tail(head: u32, tail: u32, held: int, i: int)
    requires
        0 <= held <= CONN_TX_BUF_SIZE,
        0 <= i < CONN_TX_BUF_SIZE,
        tail == (head + held) % 0x1_0000_0000,
    ensures
        ((head + i) % (CONN_TX_BUF_SIZE as int) - tail % CONN_TX_BUF_SIZE) % (
        CONN_TX_BUF_SIZE as int) == if i >= held { i - held } else { i - held + CONN_TX_BUF_SIZE },
        0 <= (head + i) % (CONN_TX_BUF_SIZE as int) < CONN_TX_BUF_SIZE,
{
    lemma_ring_position(head, held, tail);
    let n = CONN_TX_BUF_SIZE as int;
    let a = (head + i) / n;
    let b = (head + held) / n;
    let at = (head + i) % n;
    let t = (head + held) % n;
    assert(head + i == n * a + at);
    assert(head + held == n * b + t);
    let want = if i >= held { i - held } else { i - held + n };
    assert(at - t == want + n * (b - a - if i >= held { 0int } else { 1int }));
}

/// Laying `data` around the ring from the tail on, and moving the tail past it, appends `data` to
/// what the ring holds.
proof fn lemma_push_contents(buf: Seq<u8>, head: u32, tail: u32, data: Seq<u8>, written: Seq<u8>)
    requires
        buf.len() == CONN_TX_BUF_SIZE,
        written.len() == CONN_TX_BUF_SIZE,
        counter_distance(tail, head) + data.len() <= CONN_TX_BUF_SIZE,
        forall|at: int|
            0 <= at < CONN_TX_BUF_SIZE ==> #[trigger] written[at] == {
                let j = (at - tail % CONN_TX_BUF_SIZE) % (CONN_TX_BUF_SIZE as int);
                if j < data.len() { data[j] } else { buf[at] }
            },
    ensures
        ring_contents(written, head, ((tail + data.len()) % 0x1_0000_0000) as u32)
            == ring_contents(buf, head, tail) + data,
        counter_distance(((tail + data.len()) % 0x1_0000_0000) as u32, head) == counter_distance(
            tail,
            head,
        ) + data.len(),
{
    let held = counter_distance(tail, head) as int;
    let moved = ((tail + data.len()) % 0x1_0000_0000) as u32;
    assert(tail == (head + held) % 0x1_0000_0000);
    let after = ring_contents(written, head, moved);
    let expected = ring_contents(buf, head, tail) + data;
    assert(after.len() == held + data.len());
    assert forall|i: int| 0 <= i < held + data.len() implies #[trigger] after[i] == expected[i] by {
        lemma_distance_from_tail(head, tail, held, i);
    }
    assert(after =~= expected);
}

/// Lays `data` around the ring from `at` on.
fn write_ring(buf: &mut Vec<u8>, at: usize, data: &[u8])
    requires
        old(buf)@.len() == CONN_TX_BUF_SIZE,
        at < CONN_TX_BUF_SIZE,
        data@.len() <= CONN_TX_BUF_SIZE,
    ensures
        final(buf)@.len() == CONN_TX_BUF_SIZE,
        forall|k: int|
            0 <= k < CONN_TX_BUF_SIZE ==> #[trigger] final(buf)@[k] == {
                let j = (k - at) % (CONN_TX_BUF_SIZE as int);
                if j < data@.len() { data@[j] } else { old(buf)@[k] }
            },
{
    let ghost before = buf@;
    let to_end: usize = CONN_TX_BUF_SIZE as usize - at;

    // Check if we can fit the data buffer between tail and end of buffer
    let total = data.len();
    let len: usize = if to_end < total { to_end } else { total };
    copy_bytes(buf, at, data, 0, len);

    // Check if there is more data to be wrapped around
    if len < total {
        copy_bytes(buf, 0, data, len, total - len);
    }
    assert forall|k: int| 0 <= k < CONN_TX_BUF_SIZE implies #[trigger] buf@[k] == {
        let j = (k - at) % (CONN_TX_BUF_SIZE as int);
        if j < data@.len() { data@[j] } else { before[k] }
    } by {
        let n = CONN_TX_BUF_SIZE as int;
        if k >= at {
            assert((k - at) % n == k - at);
        } else {
            assert((k - at) % n == k - at + n);
        }
    }
}

impl LocalTxBuf {
    /// The ring is allocated whole and holds at most its capacity.
    pub closed spec fn wf(&self) -> bool {
        &&& self.buf@.len() == CONN_TX_BUF_SIZE
        &&& counter_distance(self.tail, self.head) <= CONN_TX_BUF_SIZE
    }

    /// Where in the ring the next byte to be taken lies.
    pub closed spec fn head_index(&self) -> nat {
        (self.head % CONN_TX_BUF_SIZE) as nat
    }

    /// How many bytes the next write to the stream is offered.
    pub open spec fn chunk_len(&self) -> nat {
        run_len(self@.len(), self.head_index())
    }

    /// Create a new instance of LocalTxBuf
    pub fn new() -> (r: Self)
        ensures
            r.wf(),
            r@ == Seq::<u8>::empty(),
            r.head_index() == 0,
    {
        let r = Self { buf: vec![0u8; 65536], head: 0, tail: 0 };
        assert(r@ =~= Seq::<u8>::empty());
        r
    }

    /// Return amount of data in the buffer
    pub fn len(&self) -> (r: usize)
        requires
            self.wf(),
        ensures
            r == self@.len(),
            r <= CONN_TX_BUF_SIZE,
    {
        self.tail.wrapping_sub(self.head) as usize
    }

    /// Check if the buf is empty
    pub fn is_empty(&self) -> (r: bool)
        requires
            self.wf(),
        ensures
            r == (self@.len() == 0),
    {
        self.len() == 0
    }

    /// Add new data to the tx buffer, push all or none
    /// Returns LocalTxBufFull error if space not sufficient
    pub fn push(&mut self, data_buf: &[u8]) -> (r: Result<(), Error>)
        requires
            old(self).wf(),
        ensures
            final(self).wf(),
            final(self).head_index() == old(self).head_index(),
            final(self)@ == held_after(old(self)@, TxOp::Push(data_buf@)),
            match r {
                Ok(()) => old(self)@.len() + data_buf@.len() <= CONN_TX_BUF_SIZE,
                Err(e) => {
                    &&& old(self)@.len() + data_buf@.len() > CONN_TX_BUF_SIZE
                    &&& e is LocalTxBufFull
                    &&& *final(self) == *old(self)
                },
            },
    {
        let held = self.len();
        if CONN_TX_BUF_SIZE as usize - held < data_buf.len() {
            // Tx buffer is full
            return Err(Error::LocalTxBufFull);
        }
        // Get index into buffer at which data can be inserted
        let tail_idx: usize = self.tail as usize % CONN_TX_BUF_SIZE as usize;
        let total = data_buf.len();
        write_ring(&mut self.buf, tail_idx, data_buf);

        // Increment tail by the amount of data that has been added to the buffer
        self.tail = self.tail.wrapping_add(total as u32);

        proof {
            let before = *old(self);
            lemma_push_contents(before.buf@, before.head, before.tail, data_buf@, self.buf@);
            assert(self.tail == (before.tail + total) % 0x1_0000_0000);
        }
        Ok(())
    }

    /// The bytes to write to the stream next: the longest run from the head on that does not wrap
    /// around the end of the ring.
    pub fn flush_chunk(&self) -> (r: &[u8])
        requires
            self.wf(),
        ensures
            r@ == self@.take(self.chunk_len() as int),
    {
        // Get index into buffer from which data can be read
        let head_idx: usize = self.head as usize % CONN_TX_BUF_SIZE as usize;
        let to_end: usize = CONN_TX_BUF_SIZE as usize - head_idx;
        let held = self.len();
        let len: usize = if to_end < held { to_end } else { held };
        let r = vstd::slice::slice_subrange(self.buf.as_slice(), head_idx, head_idx + len);
        assert(r@ =~= self@.take(self.chunk_len() as int));
        r
    }

    /// Whether a flush has anything to write at all.
    pub fn flush_start(&self) -> (r: FlushStep)
        requires
            self.wf(),
        ensures
            r == flush_begin(self@.len()),
    {
        if self.is_empty() {
            // No data to be flushed
            FlushStep::Done(0)
        } else {
            FlushStep::More(0)
        }
    }

    /// Flush buf data to stream: takes in how much of [`Self::flush_chunk`] the stream accepted
    /// (`None` if the write failed), where `flushed` bytes had been accepted before.
    ///
    /// A chunk that was accepted whole is followed by the next one. A failed write ends the flush,
    /// and fails it only if it was the first.
    pub fn flush_to(&mut self, flushed: usize, accepted: Option<usize>) -> (r: FlushStep)
        requires
            old(self).wf(),
            old(self)@.len() > 0,
            flushed + old(self)@.len() <= CONN_TX_BUF_SIZE,
            accepted matches Some(n) ==> n <= old(self).chunk_len(),
        ensures
            final(self).wf(),
            match accepted {
                Some(n) => {
                    &&& final(self)@ == held_after(old(self)@, TxOp::Accept(n as nat))
                    &&& final(self).head_index() == (old(self).head_index() + n) % (
                    CONN_TX_BUF_SIZE as int)
                },
                None => *final(self) == *old(self),
            },
            r == flush_step(old(self)@.len(), old(self).chunk_len(), flushed, accepted),
    {
        let written = match accepted {
            Some(written) => written,
            None => {
                return if flushed == 0 { FlushStep::Failed } else { FlushStep::Done(flushed) };
            },
        };
        let len = self.flush_chunk().len();

        // Increment head by amount of data that has been flushed to the stream
        self.head = self.head.wrapping_add(written as u32);
        proof {
            let before = *old(self);
            lemma_ring_position(before.head, written as int, self.head);
            assert(self@ =~= before@.skip(written as int));
        }

        // If written length is less than the expected length we can try again in the future
        if written < len {
            return FlushStep::Done(flushed + written);
        }
        // The head index has wrapped around the end of the buffer
        if self.is_empty() {
            FlushStep::Done(flushed + written)
        } else {
            FlushStep::More(flushed + written)
        }
    }
}

/// A buffer that is in order holds no more than its capacity, and its next byte lies within the ring.
pub proof fn law_buffer_bounds(b: &LocalTxBuf)
    requires
        b.wf(),
    ensures
        b.head_index() < CONN_TX_BUF_SIZE,
        b@.len() <= CONN_TX_BUF_SIZE,
{
}

/// The chunk that the stream is offered is all that is held, or all up to the end of the ring: so it
/// is some wherever anything is held.
pub proof fn law_offered_chunk(b: &LocalTxBuf)
    requires
        b.wf(),
    ensures
        b.chunk_len() <= b@.len(),
        b.head_index() + b.chunk_len() <= 65536,
        b.chunk_len() == b@.len() || b.head_index() + b.chunk_len() == 65536,
        b@.len() > 0 ==> b.chunk_len() > 0,
{
}

/// First in, first out: whatever part of a chunk the stream accepts, the accepted bytes followed by
/// those still held are the bytes that were held before.
pub proof fn law_flush_keeps_order(held: Seq<u8>, head_index: nat, accepted: nat)
    requires
        head_index < CONN_TX_BUF_SIZE,
        accepted <= run_len(held.len(), head_index),
    ensures
        held.take(run_len(held.len(), head_index) as int).take(accepted as int) + held.skip(
            accepted as int,
        ) == held,
{
    assert(held.take(run_len(held.len(), head_index) as int).take(accepted as int) + held.skip(
        accepted as int,
    ) =~= held);
}

/// One operation on the buffer, as its contents see it.
pub enum TxOp {
    /// [`LocalTxBuf::push`] of these bytes
    Push(Seq<u8>),
    /// [`LocalTxBuf::flush_to`] of this many accepted bytes
    Accept(nat),
}

/// What the buffer holds after `op`.
pub open spec fn held_after(held: Seq<u8>, op: TxOp) -> Seq<u8> {
    match op {
        TxOp::Push(data) => if held.len() + data.len() <= CONN_TX_BUF_SIZE {
            held + data
        } else {
            held
        },
        TxOp::Accept(n) => held.skip(n as int),
    }
}

/// What is pushed is appended whole if it fits into 64 KiB with what is held, and else not at all.
pub proof fn law_push_all_or_none(held: Seq<u8>, data: Seq<u8>)
    ensures
        held.len() + data.len() <= 65536 ==> held_after(held, TxOp::Push(data)) == held + data,
        held.len() + data.len() > 65536 ==> held_after(held, TxOp::Push(data)) == held,
{
}

/// What the stream accepts leaves the buffer from its front, and nothing else leaves it.
pub proof fn law_accepted_leaves_front(held: Seq<u8>, n: nat)
    requires
        n <= held.len(),
    ensures
        held.take(n as int) + held_after(held, TxOp::Accept(n)) == held,
{
    assert(held.take(n as int) + held_after(held, TxOp::Accept(n)) =~= held);
}

/// What the buffer holds after `ops`, in order.
pub open spec fn held_after_all(held: Seq<u8>, ops: Seq<TxOp>) -> Seq<u8>
    decreases ops.len(),
{
    if ops.len() == 0 {
        held
    } else {
        held_after(held_after_all(held, ops.drop_last()), ops.last())
    }
}

/// No operation accepts more than is held at the time.
pub open spec fn accepts_what_is_held(held: Seq<u8>, ops: Seq<TxOp>) -> bool
    decreases ops.len(),
{
    ops.len() == 0 || {
        &&& accepts_what_is_held(held, ops.drop_last())
        &&& ops.last() matches TxOp::Accept(n) ==> n <= held_after_all(held, ops.drop_last()).len()
    }
}

/// The bytes of all pushes among `ops` that fitted.
pub open spec fn all_pushed(held: Seq<u8>, ops: Seq<TxOp>) -> Seq<u8>
    decreases ops.len(),
{
    if ops.len() == 0 {
        Seq::empty()
    } else {
        let earlier = all_pushed(held, ops.drop_last());
        match ops.last() {
            TxOp::Push(data) => if held_after_all(held, ops.drop_last()).len() + data.len()
                <= CONN_TX_BUF_SIZE {
                earlier + data
            } else {
                earlier
            },
            TxOp::Accept(n) => earlier,
        }
    }
}

/// The bytes that the stream accepted over `ops`.
pub open spec fn all_accepted(held: Seq<u8>, ops: Seq<TxOp>) -> Seq<u8>
    decreases ops.len(),
{
    if ops.len() == 0 {
        Seq::empty()
    } else {
        let earlier = all_accepted(held, ops.drop_last());
        match ops.last() {
            TxOp::Push(data) => earlier,
            TxOp::Accept(n) => earlier + held_after_all(held, ops.drop_last()).take(n as int),
        }
    }
}

/// Nothing is lost, repeated or reordered, whatever pushes and flushes follow each other: what the
/// stream accepted, followed by what is held, is what was held at first, followed by what was
/// pushed. And the buffer never holds more than its capacity.
pub proof fn law_no_byte_lost(held: Seq<u8>, ops: Seq<TxOp>)
    requires
        held.len() <= CONN_TX_BUF_SIZE,
        accepts_what_is_held(held, ops),
    ensures
        all_accepted(held, ops) + held_after_all(held, ops) == held + all_pushed(held, ops),
        held_after_all(held, ops).len() <= CONN_TX_BUF_SIZE,
    decreases ops.len(),
{
    if ops.len() > 0 {
        law_no_byte_lost(held, ops.drop_last());
        let before = held_after_all(held, ops.drop_last());
        let accepted = all_accepted(held, ops.drop_last());
        let pushed = all_pushed(held, ops.drop_last());
        match ops.last() {
            TxOp::Push(data) => {
                if before.len() + data.len() <= CONN_TX_BUF_SIZE {
                    assert(accepted + (before + data) =~= (accepted + before) + data);
                    assert(held + (pushed + data) =~= (held + pushed) + data);
                }
            },
            TxOp::Accept(n) => {
                assert((accepted + before.take(n as int)) + before.skip(n as int) =~= accepted
                    + before);
            },
        }
    } else {
        assert(all_accepted(held, ops) + held =~= held + all_pushed(held, ops));
    }
}

/// A stream that accepts whole chunks empties the buffer in at most two writes: what is left after
/// the first chunk lies in one run.
pub proof fn law_two_chunks_empty(held: Seq<u8>, head_index: nat)
    requires
        head_index < CONN_TX_BUF_SIZE,
        held.len() <= CONN_TX_BUF_SIZE,
    ensures
        ({
            let first = run_len(held.len(), head_index);
            let rest = held.skip(first as int);
            let next_index = (head_index + first) % (CONN_TX_BUF_SIZE as nat);
            &&& run_len(rest.len(), next_index) == rest.len()
            &&& held.len() > 0 ==> first > 0
        }),
{
}

} // verus!
