//! A ring buffer of audio bytes.
//!
//! When the buffer is full, the oldest bytes give way to new ones; when it runs
//! out, readers get silence.
use vstd::prelude::*;

verus! {

/// The default capacity in bytes.
pub const DEFAULT_BUFFER_CAPACITY: usize = 65536;

/// The smallest capacity in bytes.
const MIN_BUFFER_CAPACITY: usize = 1024;

/// Statistics of a ring buffer.
#[derive(Debug, Clone, Copy, PartialEq, Eq, Structural)]
pub struct RingBufferStats {
    /// How often bytes were dropped.
    pub overflows: u64,
    /// How often silence was read.
    pub underruns: u64,
    /// How many bytes were written.
    pub bytes_written: u64,
    /// How many bytes were read.
    pub bytes_read: u64,
    /// How many bytes are in the buffer.
    pub current_fill: usize,
    /// How many bytes fit in the buffer.
    pub capacity: usize,
}

impl Default for RingBufferStats {
    fn default() -> (s: RingBufferStats)
        ensures
            s == (RingBufferStats {
                overflows: 0,
                underruns: 0,
                bytes_written: 0,
                bytes_read: 0,
                current_fill: 0,
                capacity: 0,
            }),
    {
        RingBufferStats {
            overflows: 0,
            underruns: 0,
            bytes_written: 0,
            bytes_read: 0,
            current_fill: 0,
            capacity: 0,
        }
    }
}

/// A ring buffer of audio bytes.
#[derive(Debug)]
pub struct AudioRingBuffer {
    buffer: Vec<u8>,
    start: usize,
    fill: usize,
    overflows: u64,
    underruns: u64,
    bytes_written: u64,
    bytes_read: u64,
}

/// The view of `AudioRingBuffer`.
pub struct RingView {
    /// The bytes in the buffer, the oldest first.
    pub contents: Seq<u8>,
    /// How many bytes fit in the buffer.
    pub capacity: nat,
    /// How often bytes were dropped.
    pub overflows: u64,
    /// How often silence was read.
    pub underruns: u64,
    /// How many bytes were written.
    pub bytes_written: u64,
    /// How many bytes were read.
    pub bytes_read: u64,
}

/// A counter after `n` more, which starts again at zero when it is exhausted.
pub open spec fn counted(c: u64, n: int) -> u64 {
    ((c + n) % 0x1_0000_0000_0000_0000) as u64
}

/// The last `n` bytes, all of them where there are fewer.
pub open spec fn last_bytes(s: Seq<u8>, n: nat) -> Seq<u8> {
    if s.len() <= n {
        s
    } else {
        s.skip(s.len() - n)
    }
}

/// The smaller of two numbers.
pub open spec fn least(a: nat, b: nat) -> nat {
    if a <= b {
        a
    } else {
        b
    }
}

/// The smallest power of two that is at least `n` and at least 1024.
pub open spec fn is_capacity_for(capacity: nat, n: nat) -> bool {
    &&& exists|k: nat| capacity == #[trigger] vstd::arithmetic::power2::pow2(k)
    &&& capacity >= n && capacity >= 1024
    &&& capacity / 2 < n || capacity == 1024
}

impl RingView {
    /// There is room for what is in the buffer.
    pub open spec fn wf(self) -> bool {
        self.contents.len() <= self.capacity
    }

    /// The buffer after bytes were pushed: the last bytes that fit.
    pub open spec fn pushed(self, data: Seq<u8>) -> RingView {
        let written = least(data.len(), self.capacity);
        RingView {
            contents: last_bytes(self.contents + data, self.capacity),
            overflows: if written > self.capacity - self.contents.len() {
                counted(self.overflows, 1)
            } else {
                self.overflows
            },
            bytes_written: counted(self.bytes_written, written as int),
            ..self
        }
    }

    /// The buffer after `n` bytes were asked for.
    pub open spec fn popped(self, n: nat) -> RingView {
        let read = least(n, self.contents.len());
        RingView {
            contents: self.contents.skip(read as int),
            underruns: if read < n {
                counted(self.underruns, 1)
            } else {
                self.underruns
            },
            bytes_read: counted(self.bytes_read, read as int),
            ..self
        }
    }

    /// What is read where `n` bytes are asked for: the oldest bytes, then
    /// silence.
    pub open spec fn output(self, n: nat) -> Seq<u8> {
        let read = least(n, self.contents.len());
        self.contents.take(read as int) + Seq::new((n - read) as nat, |i: int| 0u8)
    }
}

/// The place of byte `i` after `start` in a ring of the given size.
spec fn place(start: int, i: int, capacity: int) -> int {
    if start + i < capacity {
        start + i
    } else {
        start + i - capacity
    }
}

impl View for AudioRingBuffer {
    type V = RingView;

    closed spec fn view(&self) -> RingView {
        RingView {
            contents: Seq::new(
                self.fill as nat,
                |i: int|
                    self.buffer@[place(self.start as int, i, self.buffer@.len() as int)],
            ),
            capacity: self.buffer@.len(),
            overflows: self.overflows,
            underruns: self.underruns,
            bytes_written: self.bytes_written,
            bytes_read: self.bytes_read,
        }
    }
}

impl AudioRingBuffer {
    /// The reading place lies within the ring, and no more bytes are in it than
    /// fit.
    pub closed spec fn wf(&self) -> bool {
        &&& self.start < self.buffer@.len()
        &&& self.fill <= self.buffer@.len()
    }

    /// A buffer for at least the given number of bytes.
    pub fn new(capacity_bytes: usize) -> (b: AudioRingBuffer)
        requires
            capacity_bytes <= usize::MAX / 2 + 1,
        ensures
            b.wf(),
            b@.contents == Seq::<u8>::empty(),
            is_capacity_for(b@.capacity, capacity_bytes as nat),
            b@.overflows == 0,
            b@.underruns == 0,
            b@.bytes_written == 0,
            b@.bytes_read == 0,
    {
        let mut capacity: usize = MIN_BUFFER_CAPACITY;
        let ghost mut k: nat = 10;
        proof {
            vstd::arithmetic::power2::lemma2_to64();
        }
        while capacity < capacity_bytes
            invariant
                capacity_bytes <= usize::MAX / 2 + 1,
                capacity == vstd::arithmetic::power2::pow2(k),
                capacity >= 1024,
                capacity / 2 < capacity_bytes || capacity == 1024,
            decreases 2 * capacity_bytes - capacity,
        {
            proof {
                vstd::arithmetic::power2::lemma_pow2_unfold(k + 1);
                k = k + 1;
            }
            capacity = capacity * 2;
        }
        let b = AudioRingBuffer {
            buffer: vec![0u8; capacity],
            start: 0,
            fill: 0,
            overflows: 0,
            underruns: 0,
            bytes_written: 0,
            bytes_read: 0,
        };
        assert(b@.contents == Seq::<u8>::empty());
        b
    }

    /// A buffer of the default capacity.
    pub fn with_default_capacity() -> (b: AudioRingBuffer)
        ensures
            b.wf(),
            b@ == fresh_ring(65536),
    {
        let b = AudioRingBuffer::new(DEFAULT_BUFFER_CAPACITY);
        proof {
            let k = choose|k: nat| b@.capacity == #[trigger] vstd::arithmetic::power2::pow2(k);
            vstd::arithmetic::power2::lemma2_to64();
            if k < 16 {
                vstd::arithmetic::power2::lemma_pow2_strictly_increases(k, 16);
            } else if k > 16 {
                if k > 17 {
                    vstd::arithmetic::power2::lemma_pow2_strictly_increases(17, k);
                }
            }
        }
        b
    }

    /// How many bytes fit in the buffer.
    pub fn capacity(&self) -> (n: usize)
        ensures
            n == self@.capacity,
    {
        self.buffer.len()
    }

    /// How many bytes can be read.
    pub fn available_read(&self) -> (n: usize)
        ensures
            n == self@.contents.len(),
    {
        self.fill
    }

    /// How many bytes can be written before any is dropped.
    pub fn available_write(&self) -> (n: usize)
        requires
            self.wf(),
        ensures
            n == self@.capacity - self@.contents.len(),
    {
        self.buffer.len() - self.fill
    }

    /// Tests whether nothing can be read.
    pub fn is_empty(&self) -> (b: bool)
        ensures
            b == (self@.contents.len() == 0),
    {
        self.fill == 0
    }

    /// Tests whether the next byte drops one.
    pub fn is_full(&self) -> (b: bool)
        ensures
            b == (self@.contents.len() >= self@.capacity),
    {
        self.fill >= self.buffer.len()
    }

    /// The place of byte `i` after the reading place.
    fn place_of(&self, i: usize) -> (p: usize)
        requires
            self.wf(),
            i <= self.buffer@.len(),
        ensures
            p == place(self.start as int, i as int, self.buffer@.len() as int),
            i < self.buffer@.len() ==> p < self.buffer@.len(),
    {
        if self.start < self.buffer.len() - i {
            self.start + i
        } else {
            self.start - (self.buffer.len() - i)
        }
    }

    /// Drops the oldest `n` bytes.
    fn drop_oldest(&mut self, n: usize)
        requires
            old(self).wf(),
            n <= old(self)@.contents.len(),
        ensures
            final(self).wf(),
            final(self)@ == (RingView {
                contents: old(self)@.contents.skip(n as int),
                ..old(self)@
            }),
    {
        let ghost before = self@.contents;
        let p: usize = self.place_of(n);
        self.start = if p >= self.buffer.len() {
            0
        } else {
            p
        };
        self.fill = self.fill - n;
        assert(self@.contents == before.skip(n as int));
    }

    /// Appends a byte to a buffer that is not full.
    fn append(&mut self, x: u8)
        requires
            old(self).wf(),
            old(self)@.contents.len() < old(self)@.capacity,
        ensures
            final(self).wf(),
            final(self)@ == (RingView {
                contents: old(self)@.contents.push(x),
                ..old(self)@
            }),
    {
        let ghost before = self@.contents;
        let p: usize = self.place_of(self.fill);
        self.buffer[p] = x;
        assert(self.buffer.len() == self.buffer@.len());
        self.fill = self.fill + 1;
        assert(self@.contents == before.push(x));
    }

    /// Pushes bytes. The oldest bytes give way where there is no room, and of
    /// more bytes than fit in the buffer only the last are written. Gives the
    /// number of bytes that were written.
    pub fn push(&mut self, data: &[u8]) -> (n: usize)
        requires
            old(self).wf(),
        ensures
            final(self).wf(),
            n == least(data@.len(), old(self)@.capacity),
            final(self)@ == old(self)@.pushed(data@),
    {
        let ghost before = self@;
        let capacity: usize = self.buffer.len();
        let len: usize = if data.len() <= capacity {
            data.len()
        } else {
            capacity
        };
        let available: usize = capacity - self.fill;
        if len > available {
            self.overflows = self.overflows.wrapping_add(1);
            self.drop_oldest(len - available);
        }
        let from: usize = data.len() - len;
        let ghost kept = self@.contents;
        let mut i: usize = from;
        while i < data.len()
            invariant
                from <= i <= data@.len(),
                self.wf(),
                kept.len() + (data@.len() - from) <= capacity,
                self@.contents == kept + data@.subrange(from as int, i as int),
                self@.capacity == capacity,
                self@.overflows == before.pushed(data@).overflows,
                self@.underruns == before.underruns,
                self@.bytes_written == before.bytes_written,
                self@.bytes_read == before.bytes_read,
            decreases data@.len() - i,
        {
            self.append(data[i]);
            i = i + 1;
            assert(self@.contents == kept + data@.subrange(from as int, i as int));
        }
        self.bytes_written = self.bytes_written.wrapping_add(len as u64);
        assert(self@.contents == last_bytes(before.contents + data@, before.capacity));
        len
    }

    /// Fills `buf` with the oldest bytes and, where there are too few, with
    /// silence. Gives the number of bytes that were read.
    pub fn pop(&mut self, buf: &mut [u8]) -> (n: usize)
        requires
            old(self).wf(),
        ensures
            final(self).wf(),
            n == least(old(buf)@.len(), old(self)@.contents.len()),
            final(self)@ == old(self)@.popped(old(buf)@.len()),
            final(buf)@ == old(self)@.output(old(buf)@.len()),
    {
        let ghost before = self@;
        let size: usize = buf.len();
        let read: usize = if size <= self.fill {
            size
        } else {
            self.fill
        };
        let ghost want = before.output(size as nat);
        let mut i: usize = 0;
        while i < size
            invariant
                i <= size,
                size == buf@.len(),
                read <= size,
                read <= self.fill,
                self.wf(),
                self@ == before,
                read == least(size as nat, before.contents.len()),
                want == before.output(size as nat),
                forall|j: int| 0 <= j < i ==> buf@[j] == want[j],
            decreases size - i,
        {
            if i < read {
                let p: usize = self.place_of(i);
                buf[i] = self.buffer[p];
                assert(buf@[i as int] == before.contents[i as int]);
            } else {
                buf[i] = 0;
            }
            i = i + 1;
        }
        if read < size {
            self.underruns = self.underruns.wrapping_add(1);
        }
        self.drop_oldest(read);
        self.bytes_read = self.bytes_read.wrapping_add(read as u64);
        assert(buf@ == want);
        read
    }

    /// Drops all bytes.
    pub fn clear(&mut self)
        requires
            old(self).wf(),
        ensures
            final(self).wf(),
            final(self)@ == (RingView { contents: Seq::empty(), ..old(self)@ }),
    {
        self.fill = 0;
        assert(self@.contents == Seq::<u8>::empty());
    }

    /// The statistics of the buffer.
    pub fn stats(&self) -> (s: RingBufferStats)
        ensures
            s == stats_of(self@),
    {
        RingBufferStats {
            overflows: self.overflows,
            underruns: self.underruns,
            bytes_written: self.bytes_written,
            bytes_read: self.bytes_read,
            current_fill: self.available_read(),
            capacity: self.capacity(),
        }
    }

    /// Sets the counters to zero.
    pub fn reset_stats(&mut self)
        requires
            old(self).wf(),
        ensures
            final(self).wf(),
            final(self)@ == (RingView {
                overflows: 0,
                underruns: 0,
                bytes_written: 0,
                bytes_read: 0,
                ..old(self)@
            }),
    {
        self.overflows = 0;
        self.underruns = 0;
        self.bytes_written = 0;
        self.bytes_read = 0;
    }

    /// There is room for what is in a buffer.
    pub proof fn law_contents_fit(&self)
        requires
            self.wf(),
        ensures
            self@.wf(),
    {
    }
}

impl Default for AudioRingBuffer {
    fn default() -> (b: AudioRingBuffer)
        ensures
            b.wf(),
            b@ == fresh_ring(65536),
    {
        AudioRingBuffer::with_default_capacity()
    }
}

/// An empty buffer of the given capacity.
pub open spec fn fresh_ring(capacity: nat) -> RingView {
    RingView {
        contents: Seq::empty(),
        capacity,
        overflows: 0,
        underruns: 0,
        bytes_written: 0,
        bytes_read: 0,
    }
}

/// The statistics of a buffer.
pub open spec fn stats_of(r: RingView) -> RingBufferStats {
    RingBufferStats {
        overflows: r.overflows,
        underruns: r.underruns,
        bytes_written: r.bytes_written,
        bytes_read: r.bytes_read,
        current_fill: r.contents.len() as usize,
        capacity: r.capacity as usize,
    }
}

/// The buffer never holds more than fits, whatever is pushed and read.
pub proof fn law_capacity_kept(r: RingView, data: Seq<u8>, n: nat)
    requires
        r.wf(),
    ensures
        r.pushed(data).wf(),
        r.popped(n).wf(),
        r.pushed(data).capacity == r.capacity,
        r.popped(n).capacity == r.capacity,
{
}

/// First in, first out: bytes that fit are read in the order in which they were
/// pushed, after those that were there before.
pub proof fn law_first_in_first_out(r: RingView, data: Seq<u8>)
    requires
        r.contents.len() + data.len() <= r.capacity,
    ensures
        r.pushed(data).output(r.contents.len() + data.len()) == r.contents + data,
        r.pushed(data).popped(r.contents.len() + data.len()).contents == Seq::<u8>::empty(),
        r.pushed(data).overflows == r.overflows,
{
    let n = r.contents.len() + data.len();
    assert(r.pushed(data).contents == r.contents + data);
    assert(r.pushed(data).output(n) =~= r.contents + data);
    assert(r.pushed(data).popped(n).contents =~= Seq::<u8>::empty());
}

/// Pushing in two parts is pushing the whole.
pub proof fn law_push_in_parts(r: RingView, a: Seq<u8>, b: Seq<u8>)
    requires
        r.wf(),
    ensures
        r.pushed(a).pushed(b).contents == r.pushed(a + b).contents,
{
    assert(r.pushed(a).pushed(b).contents =~= r.pushed(a + b).contents);
}

/// Reading in two parts is reading the whole, where enough bytes are there.
pub proof fn law_pop_in_parts(r: RingView, m: nat, n: nat)
    requires
        m + n <= r.contents.len(),
    ensures
        r.output(m) + r.popped(m).output(n) == r.output(m + n),
        r.popped(m).popped(n).contents == r.popped(m + n).contents,
        r.popped(m).popped(n).underruns == r.underruns,
{
    assert(r.output(m) + r.popped(m).output(n) =~= r.output(m + n));
    assert(r.popped(m).popped(n).contents =~= r.popped(m + n).contents);
}

/// Overflow drops the oldest bytes: the newest are always there afterwards, and
/// the overflow is counted.
pub proof fn law_overflow_keeps_newest(r: RingView, data: Seq<u8>)
    requires
        r.wf(),
        data.len() <= r.capacity,
        r.contents.len() + data.len() > r.capacity,
    ensures
        r.pushed(data).contents.len() == r.capacity,
        r.pushed(data).contents.skip(r.capacity - data.len()) == data,
        r.pushed(data).contents.take(r.capacity - data.len()) == r.contents.skip(
            r.contents.len() + data.len() - r.capacity,
        ),
        r.pushed(data).overflows == counted(r.overflows, 1),
{
    assert(r.pushed(data).contents.skip(r.capacity - data.len()) =~= data);
    assert(r.pushed(data).contents.take(r.capacity - data.len()) =~= r.contents.skip(
        r.contents.len() + data.len() - r.capacity,
    ));
}

/// An underrun ends in silence, and is counted.
pub proof fn law_underrun_is_silence(r: RingView, n: nat, i: int)
    requires
        r.contents.len() <= i < n,
    ensures
        r.output(n).len() == n,
        r.output(n)[i] == 0,
        r.popped(n).underruns == counted(r.underruns, 1),
{
}

/// One use of a buffer.
pub enum RingUse {
    /// Bytes are pushed.
    Push(Seq<u8>),
    /// So many bytes are asked for.
    Pop(nat),
}

/// The buffer after one use.
pub open spec fn used(r: RingView, u: RingUse) -> RingView {
    match u {
        RingUse::Push(data) => r.pushed(data),
        RingUse::Pop(n) => r.popped(n),
    }
}

/// The buffer after uses one after the other.
pub open spec fn used_all(r: RingView, uses: Seq<RingUse>) -> RingView
    decreases uses.len(),
{
    if uses.len() == 0 {
        r
    } else {
        used(used_all(r, uses.drop_last()), uses.last())
    }
}

/// What all pushes give back, taken together.
pub open spec fn pushed_total(r: RingView, uses: Seq<RingUse>) -> nat
    decreases uses.len(),
{
    if uses.len() == 0 {
        0
    } else {
        pushed_total(r, uses.drop_last()) + match uses.last() {
            RingUse::Push(data) => least(data.len(), used_all(r, uses.drop_last()).capacity),
            RingUse::Pop(_) => 0,
        }
    }
}

/// What all pops give back, taken together.
pub open spec fn popped_total(r: RingView, uses: Seq<RingUse>) -> nat
    decreases uses.len(),
{
    if uses.len() == 0 {
        0
    } else {
        popped_total(r, uses.drop_last()) + match uses.last() {
            RingUse::Push(_) => 0,
            RingUse::Pop(n) => least(n, used_all(r, uses.drop_last()).contents.len()),
        }
    }
}

/// The statistics tell the history: from a fresh buffer on, whatever is pushed and
/// read, the counters are the totals of what the pushes and the pops gave back, as
/// long as the total of the pushes fits in the counter. What was written and not
/// read is at least what is in the buffer, and exactly that if and only if nothing
/// ever overflowed.
pub proof fn law_statistics_tell_history(capacity: nat, uses: Seq<RingUse>)
    requires
        capacity <= usize::MAX,
        pushed_total(fresh_ring(capacity), uses) <= u64::MAX,
    ensures
        ({
            let fresh = fresh_ring(capacity);
            let r = used_all(fresh, uses);
            let stats = stats_of(r);
            &&& stats.bytes_written == pushed_total(fresh, uses)
            &&& stats.bytes_read == popped_total(fresh, uses)
            &&& stats.capacity == capacity
            &&& stats.current_fill == r.contents.len() <= capacity
            &&& stats.bytes_written - stats.bytes_read >= stats.current_fill
            &&& stats.bytes_written - stats.bytes_read == stats.current_fill <==> stats.overflows
                == 0
        }),
{
    lemma_history(capacity, uses);
}

/// A counter that is not exhausted adds up.
proof fn lemma_counted(c: u64, n: nat)
    requires
        c + n <= u64::MAX,
    ensures
        counted(c, n as int) == c + n,
{
    vstd::arithmetic::div_mod::lemma_small_mod((c + n) as nat, 0x1_0000_0000_0000_0000);
}

/// The counters are the given totals, at least as many bytes were dropped as
/// overflows were counted, and none where none was.
spec fn tells(r: RingView, capacity: nat, written: nat, read: nat) -> bool {
    let dropped = written - read - r.contents.len();
    &&& r.contents.len() <= r.capacity == capacity
    &&& r.bytes_written == written
    &&& r.bytes_read == read
    &&& r.overflows <= dropped
    &&& r.overflows == 0 ==> dropped == 0
}

/// A push adds to what was written.
#[verifier::spinoff_prover]
proof fn lemma_push_tells(r: RingView, data: Seq<u8>, capacity: nat, written: nat, read: nat)
    requires
        tells(r, capacity, written, read),
        written + least(data.len(), capacity) <= u64::MAX,
    ensures
        tells(r.pushed(data), capacity, written + least(data.len(), capacity), read),
{
    let n = least(data.len(), capacity);
    lemma_counted(r.bytes_written, n);
    assert(r.pushed(data).contents.len() == least(r.contents.len() + data.len(), capacity));
    if n > capacity - r.contents.len() {
        lemma_counted(r.overflows, 1);
    }
}

/// A pop adds to what was read.
#[verifier::spinoff_prover]
proof fn lemma_pop_tells(r: RingView, n: nat, capacity: nat, written: nat, read: nat)
    requires
        tells(r, capacity, written, read),
        written <= u64::MAX,
    ensures
        tells(r.popped(n), capacity, written, read + least(n, r.contents.len())),
{
    lemma_counted(r.bytes_read, least(n, r.contents.len()));
}

/// The counters are the totals after uses one after the other.
#[verifier::spinoff_prover]
proof fn lemma_history(capacity: nat, uses: Seq<RingUse>)
    requires
        pushed_total(fresh_ring(capacity), uses) <= u64::MAX,
    ensures
        tells(
            used_all(fresh_ring(capacity), uses),
            capacity,
            pushed_total(fresh_ring(capacity), uses),
            popped_total(fresh_ring(capacity), uses),
        ),
    decreases uses.len(),
{
    if uses.len() > 0 {
        let fresh = fresh_ring(capacity);
        let front = uses.drop_last();
        lemma_history(capacity, front);
        let r = used_all(fresh, front);
        let written = pushed_total(fresh, front);
        let read = popped_total(fresh, front);
        match uses.last() {
            RingUse::Push(data) => lemma_push_tells(r, data, capacity, written, read),
            RingUse::Pop(n) => lemma_pop_tells(r, n, capacity, written, read),
        }
    }
}

/// The capacity of a ring is a power of two of at least 1024 bytes, and the least such
/// that holds what was asked for.
pub proof fn law_capacity_is_least(capacity: nat, other: nat, n: nat)
    requires
        is_capacity_for(capacity, n),
        exists|k: nat| other == #[trigger] vstd::arithmetic::power2::pow2(k),
        other >= n,
        other >= 1024,
    ensures
        1024 <= capacity <= other,
        n <= capacity,
{
    let j = choose|k: nat| capacity == #[trigger] vstd::arithmetic::power2::pow2(k);
    let k = choose|k: nat| other == #[trigger] vstd::arithmetic::power2::pow2(k);
    if other < capacity {
        if k + 1 < j {
            vstd::arithmetic::power2::lemma_pow2_strictly_increases(k + 1, j);
        }
        if j <= k {
            if j < k {
                vstd::arithmetic::power2::lemma_pow2_strictly_increases(j, k);
            }
            assert(false);
        }
        vstd::arithmetic::power2::lemma_pow2_unfold(k + 1);
        assert(2 * other <= capacity);
    }
}

/// What was pushed last is kept, what was pushed first is popped first, and a ring
/// holds no more than its capacity.
pub proof fn law_ring_moves_bytes(r: RingView, data: Seq<u8>, n: nat)
    requires
        r.wf(),
    ensures
        r.contents.len() + data.len() <= r.capacity ==> r.pushed(data).contents == r.contents
            + data,
        data.len() >= r.capacity ==> r.pushed(data).contents == data.skip(
            data.len() - r.capacity,
        ),
        n <= r.contents.len() ==> r.output(n) == r.contents.take(n as int) && r.popped(n).contents
            == r.contents.skip(n as int) && r.popped(n).underruns == r.underruns,
        r.contents.len() + data.len() <= r.capacity && r.bytes_written + data.len() <= u64::MAX
            ==> r.pushed(data).bytes_written == r.bytes_written + data.len(),
        n <= r.contents.len() && r.bytes_read + n <= u64::MAX ==> r.popped(n).bytes_read
            == r.bytes_read + n,
        n > r.contents.len() && r.underruns < u64::MAX ==> r.popped(n).underruns == r.underruns
            + 1,
        data.len() <= r.capacity < r.contents.len() + data.len() && r.overflows < u64::MAX
            ==> r.pushed(data).overflows == r.overflows + 1,
{
    if data.len() >= r.capacity {
        assert(r.pushed(data).contents =~= data.skip(data.len() - r.capacity));
    }
    if n <= r.contents.len() {
        assert(r.output(n) =~= r.contents.take(n as int));
    }
}

} // verus!
