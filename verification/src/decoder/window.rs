//! The byte window: one buffer with a read cursor and a write cursor, and the
//! policy by which it makes room for incoming bytes.

use super::{Error, FromBytes, ParseOutcome};
use vstd::prelude::*;

verus! {

/// `n` zero bytes.
pub open spec fn zeros(n: nat) -> Seq<u8> {
    Seq::new(n, |i: int| 0u8)
}

/// The window as a mathematical value.
///
/// `bytes` is the whole buffer, so its length is the capacity. The bytes in
/// `[read, write)` are unconsumed data, those in `[write, capacity)` are free
/// space for incoming bytes, and those in `[0, read)` are consumed and can be
/// reclaimed.
pub struct Window {
    pub bytes: Seq<u8>,
    pub read: nat,
    pub write: nat,
    /// The capacity that growth may not exceed; `None` where growth is not
    /// bounded by the caller.
    pub ceiling: Option<nat>,
}

impl Window {
    /// A window of `size` zero bytes with nothing written to it.
    pub open spec fn empty(size: nat, ceiling: Option<nat>) -> Window {
        Window { bytes: zeros(size), read: 0, write: 0, ceiling }
    }

    /// The most that the capacity may ever be: the ceiling, or the largest
    /// length that the machine can express.
    pub open spec fn limit(self) -> nat {
        match self.ceiling {
            Some(c) => c,
            None => usize::MAX as nat,
        }
    }

    /// The cursors are in order and inside the buffer, and the buffer is
    /// within its limit.
    pub open spec fn wf(self) -> bool {
        &&& self.read <= self.write <= self.bytes.len()
        &&& self.bytes.len() <= self.limit()
        &&& self.limit() <= usize::MAX
    }

    pub open spec fn capacity(self) -> nat {
        self.bytes.len()
    }

    /// The bytes that were written and not yet consumed.
    pub open spec fn unconsumed(self) -> Seq<u8> {
        self.bytes.subrange(self.read as int, self.write as int)
    }

    /// The free space behind the write cursor, with what it holds.
    pub open spec fn tail(self) -> Seq<u8> {
        self.bytes.skip(self.write as int)
    }

    pub open spec fn free_tail(self) -> nat {
        (self.bytes.len() - self.write) as nat
    }

    pub open spec fn reclaimable(self) -> nat {
        self.read
    }

    /// All the free space: behind the write cursor and before the read cursor.
    pub open spec fn free(self) -> nat {
        self.free_tail() + self.reclaimable()
    }

    /// The unconsumed bytes and `needed` more fit under the limit.
    pub open spec fn fits(self, needed: nat) -> bool {
        self.unconsumed().len() + needed <= self.limit()
    }

    /// The window with its unconsumed bytes moved to the front. The bytes
    /// behind them stay as they were.
    pub open spec fn compact(self) -> Window {
        Window {
            bytes: self.unconsumed() + self.bytes.skip(self.write - self.read),
            read: 0,
            write: (self.write - self.read) as nat,
            ceiling: self.ceiling,
        }
    }

    /// The window with `extra` zero bytes added to its capacity.
    pub open spec fn grow(self, extra: nat) -> Window {
        Window { bytes: self.bytes + zeros(extra), ..self }
    }

    /// The window after `n` unconsumed bytes were consumed.
    pub open spec fn advance_read(self, n: nat) -> Window {
        Window { read: self.read + n, ..self }
    }

    /// The window after the first `n` bytes of its free tail were filled.
    pub open spec fn append_from_source(self, n: nat) -> Window {
        Window { write: self.write + n, ..self }
    }

    /// The window with `data` in place of its free tail.
    pub open spec fn with_tail(self, data: Seq<u8>) -> Window {
        Window { bytes: self.bytes.take(self.write as int) + data, ..self }
    }

    /// The window after a source put `chunk` at the start of the free tail and
    /// the bytes were counted as written.
    pub open spec fn fill(self, chunk: Seq<u8>) -> Window {
        self.with_tail(chunk + self.tail().skip(chunk.len() as int)).append_from_source(chunk.len())
    }

    /// The window after it made room for `needed` more bytes behind the write
    /// cursor: untouched where the free tail is large enough, compacted where
    /// that is enough, and compacted and grown by what is still missing
    /// otherwise.
    pub open spec fn make_room(self, needed: nat) -> Window {
        if self.free_tail() >= needed {
            self
        } else if self.free() >= needed {
            self.compact()
        } else {
            self.compact().grow((needed - self.free()) as nat)
        }
    }
}

impl Window {
    /// Consuming keeps the window well formed and drops the consumed bytes
    /// from the front of the unconsumed ones.
    pub proof fn advance_read_consumes(self, n: nat)
        requires
            self.wf(),
            n <= self.unconsumed().len(),
        ensures
            self.advance_read(n).wf(),
            self.advance_read(n).ceiling == self.ceiling,
            self.advance_read(n).unconsumed() == self.unconsumed().skip(n as int),
    {
        assert(self.advance_read(n).unconsumed() =~= self.unconsumed().skip(n as int));
    }

    /// Compaction keeps the unconsumed bytes and the capacity, and turns all
    /// the free space into free tail.
    pub proof fn compact_keeps_unconsumed(self)
        requires
            self.wf(),
        ensures
            self.compact().wf(),
            self.compact().ceiling == self.ceiling,
            self.compact().capacity() == self.capacity(),
            self.compact().unconsumed() == self.unconsumed(),
            self.compact().free_tail() == self.free(),
    {
        assert(self.compact().unconsumed() =~= self.unconsumed());
    }

    /// Growth within the limit keeps the unconsumed bytes and adds to the free
    /// tail.
    pub proof fn grow_keeps_unconsumed(self, extra: nat)
        requires
            self.wf(),
            self.capacity() + extra <= self.limit(),
        ensures
            self.grow(extra).wf(),
            self.grow(extra).ceiling == self.ceiling,
            self.grow(extra).capacity() == self.capacity() + extra,
            self.grow(extra).unconsumed() == self.unconsumed(),
            self.grow(extra).free_tail() == self.free_tail() + extra,
    {
        assert(self.grow(extra).unconsumed() =~= self.unconsumed());
    }

    /// Making room that fits under the limit keeps the unconsumed bytes and
    /// leaves a free tail of at least the size asked for.
    pub proof fn make_room_keeps_unconsumed(self, needed: nat)
        requires
            self.wf(),
            self.fits(needed),
        ensures
            self.make_room(needed).wf(),
            self.make_room(needed).ceiling == self.ceiling,
            self.make_room(needed).unconsumed() == self.unconsumed(),
            self.make_room(needed).free_tail() >= needed,
    {
        self.compact_keeps_unconsumed();
        if self.free() < needed {
            self.compact().grow_keeps_unconsumed((needed - self.free()) as nat);
        }
    }

    /// Filling appends the chunk to the unconsumed bytes.
    pub proof fn fill_appends(self, chunk: Seq<u8>)
        requires
            self.wf(),
            chunk.len() <= self.free_tail(),
        ensures
            self.fill(chunk).wf(),
            self.fill(chunk).ceiling == self.ceiling,
            self.fill(chunk).capacity() == self.capacity(),
            self.fill(chunk).unconsumed() == self.unconsumed() + chunk,
    {
        assert(self.fill(chunk).unconsumed() =~= self.unconsumed() + chunk);
    }
}

/// A change of the window's layout.
pub enum Reshape {
    /// Move the unconsumed bytes to the front.
    Compact,
    /// Add this many bytes to the capacity, if the limit allows it.
    Grow(nat),
}

impl Window {
    /// The window after one change of layout; growth past the limit is
    /// refused and changes nothing.
    pub open spec fn reshape(self, op: Reshape) -> Window {
        match op {
            Reshape::Compact => self.compact(),
            Reshape::Grow(extra) => if self.capacity() + extra <= self.limit() {
                self.grow(extra)
            } else {
                self
            },
        }
    }

    /// The window after a sequence of changes of layout, in order.
    pub open spec fn reshape_all(self, ops: Seq<Reshape>) -> Window
        decreases ops.len(),
    {
        if ops.len() == 0 {
            self
        } else {
            self.reshape(ops[0]).reshape_all(ops.skip(1))
        }
    }

    /// After `k` bytes were consumed, what is left unconsumed is the same
    /// bytes in the same order after any sequence of compactions and growths.
    pub proof fn reshaping_keeps_unconsumed(self, k: nat, ops: Seq<Reshape>)
        requires
            self.wf(),
            k <= self.unconsumed().len(),
        ensures
            self.advance_read(k).reshape_all(ops).wf(),
            self.advance_read(k).reshape_all(ops).unconsumed() == self.unconsumed().skip(k as int),
    {
        self.advance_read_consumes(k);
        self.advance_read(k).reshape_all_keeps_unconsumed(ops);
    }

    /// No sequence of compactions and growths changes the unconsumed bytes.
    pub proof fn reshape_all_keeps_unconsumed(self, ops: Seq<Reshape>)
        requires
            self.wf(),
        ensures
            self.reshape_all(ops).wf(),
            self.reshape_all(ops).ceiling == self.ceiling,
            self.reshape_all(ops).unconsumed() == self.unconsumed(),
        decreases ops.len(),
    {
        if ops.len() > 0 {
            match ops[0] {
                Reshape::Compact => {
                    self.compact_keeps_unconsumed();
                },
                Reshape::Grow(extra) => {
                    if self.capacity() + extra <= self.limit() {
                        self.grow_keeps_unconsumed(extra);
                    }
                },
            }
            self.reshape(ops[0]).reshape_all_keeps_unconsumed(ops.skip(1));
        }
    }
}

/// The window's limit does not allow what was asked of it.
#[derive(Debug, Copy, Clone, PartialEq, Eq, Structural)]
pub struct CapacityExceeded;

/// A buffer that bytes are written into at one end and parsed from at the
/// other. A parser always sees the unconsumed bytes as one slice.
#[derive(Debug)]
pub struct BufDecoder {
    buffer: Vec<u8>,
    read: usize,
    write: usize,
    ceiling: Option<usize>,
}

impl View for BufDecoder {
    type V = Window;

    closed spec fn view(&self) -> Window {
        Window {
            bytes: self.buffer@,
            read: self.read as nat,
            write: self.write as nat,
            ceiling: match self.ceiling {
                Some(c) => Some(c as nat),
                None => None,
            },
        }
    }
}

impl BufDecoder {
    /// The invariant of the window; every operation keeps it.
    pub open spec fn wf(&self) -> bool {
        self@.wf()
    }

    /// An empty window of `size` bytes that grows as far as messages need.
    pub fn new(size: usize) -> (r: Self)
        ensures
            r.wf(),
            r@ == Window::empty(size as nat, None),
    {
        let mut buffer: Vec<u8> = Vec::new();
        buffer.resize(size, 0u8);
        assert(buffer@ =~= zeros(size as nat));
        BufDecoder { buffer, read: 0, write: 0, ceiling: None }
    }

    /// An empty window of `size` bytes whose capacity never exceeds `ceiling`.
    /// Where `size` is the larger of the two, the window starts at `ceiling`
    /// bytes.
    pub fn with_ceiling(size: usize, ceiling: usize) -> (r: Self)
        ensures
            r.wf(),
            r@ == Window::empty(
                if size <= ceiling { size as nat } else { ceiling as nat },
                Some(ceiling as nat),
            ),
    {
        let capacity: usize = if size <= ceiling { size } else { ceiling };
        let mut buffer: Vec<u8> = Vec::new();
        buffer.resize(capacity, 0u8);
        assert(buffer@ =~= zeros(capacity as nat));
        BufDecoder { buffer, read: 0, write: 0, ceiling: Some(ceiling) }
    }

    /// The number of bytes that the buffer holds, used or not.
    pub fn capacity(&self) -> (r: usize)
        ensures
            r == self@.capacity(),
    {
        self.buffer.len()
    }

    /// The ceiling that the window was made with, if any.
    pub fn ceiling(&self) -> (r: Option<usize>)
        ensures
            r.is_some() == self@.ceiling.is_some(),
            r matches Some(c) ==> self@.ceiling == Some(c as nat),
    {
        self.ceiling
    }

    /// The unconsumed bytes, for a parser to read.
    pub fn unconsumed_span(&self) -> (r: &[u8])
        requires
            self.wf(),
        ensures
            r@ == self@.unconsumed(),
    {
        vstd::slice::slice_subrange(self.buffer.as_slice(), self.read, self.write)
    }

    /// The free space behind the write cursor.
    pub fn free_tail(&self) -> (r: usize)
        requires
            self.wf(),
        ensures
            r == self@.free_tail(),
    {
        self.buffer.len() - self.write
    }

    /// The space before the read cursor, which compaction recovers.
    pub fn reclaimable(&self) -> (r: usize)
        ensures
            r == self@.reclaimable(),
    {
        self.read
    }

    /// All the free space, before the read cursor and behind the write cursor.
    pub fn free(&self) -> (r: usize)
        requires
            self.wf(),
        ensures
            r == self@.free(),
    {
        self.buffer.len() - self.write + self.read
    }

    /// Moves the unconsumed bytes to the start of the buffer, so that all the
    /// free space lies behind them.
    pub fn compact(&mut self)
        requires
            old(self).wf(),
        ensures
            final(self).wf(),
            final(self)@ == old(self)@.compact(),
    {
        let ghost before = self@;
        let len: usize = self.write - self.read;
        let read: usize = self.read;
        let mut i: usize = 0;
        while i < len
            invariant
                i <= len,
                len == before.write - before.read,
                read == before.read,
                before.wf(),
                self@ == (Window { bytes: self@.bytes, ..before }),
                self@.bytes.len() == before.bytes.len(),
                forall|j: int| 0 <= j < i ==> self@.bytes[j] == before.bytes[read + j],
                forall|j: int| i <= j < before.bytes.len() ==> self@.bytes[j] == before.bytes[j],
            decreases len - i,
        {
            let byte: u8 = self.buffer[read + i];
            self.buffer[i] = byte;
            i += 1;
        }
        self.write = len;
        self.read = 0;
        assert(self@.bytes =~= before.compact().bytes);
    }

    /// Adds `extra` zero bytes to the capacity, unless the limit forbids it;
    /// the window is then left as it was.
    pub fn grow(&mut self, extra: usize) -> (r: Result<(), CapacityExceeded>)
        requires
            old(self).wf(),
        ensures
            final(self).wf(),
            r is Ok <==> old(self)@.capacity() + extra <= old(self)@.limit(),
            r is Ok ==> final(self)@ == old(self)@.grow(extra as nat),
            r is Err ==> final(self)@ == old(self)@,
    {
        let limit: usize = match self.ceiling {
            Some(c) => c,
            None => usize::MAX,
        };
        let capacity: usize = self.buffer.len();
        if extra > limit - capacity {
            return Err(CapacityExceeded);
        }
        let ghost before = self@;
        self.buffer.resize(capacity + extra, 0u8);
        assert(self@.bytes =~= before.grow(extra as nat).bytes);
        Ok(())
    }

    /// Counts `n` unconsumed bytes as consumed. A successful parse that
    /// consumed `n` bytes of the unconsumed span is followed by this.
    pub fn advance_read(&mut self, n: usize)
        requires
            old(self).wf(),
            n <= old(self)@.unconsumed().len(),
        ensures
            final(self).wf(),
            final(self)@ == old(self)@.advance_read(n as nat),
    {
        self.read = self.read + n;
    }

    /// The free space behind the write cursor, for a source to fill from its
    /// start. Nothing else of the window can be reached through it.
    ///
    /// A slice keeps its length whatever is written to it; the window is well
    /// formed again once the slice is given back with the length it had.
    pub fn free_tail_mut(&mut self) -> (r: &mut [u8])
        requires
            old(self).wf(),
        ensures
            r@ == old(self)@.tail(),
            final(self)@ == old(self)@.with_tail(final(r)@),
            final(r)@.len() == r@.len() ==> final(self).wf(),
    {
        let (_, tail) = self.buffer.as_mut_slice().split_at_mut(self.write);
        tail
    }

    /// Counts the first `n` bytes of the free tail as written. A physical read
    /// that put `n` bytes there is followed by this.
    pub fn append_from_source(&mut self, n: usize)
        requires
            old(self).wf(),
            n <= old(self)@.free_tail(),
        ensures
            final(self).wf(),
            final(self)@ == old(self)@.append_from_source(n as nat),
    {
        self.write = self.write + n;
    }

    /// Makes room for `needed` more bytes behind the write cursor, so that one
    /// physical read can deliver them in one piece.
    ///
    /// Where the free tail is too small the window is compacted, and where
    /// even that is not enough it is grown by what is missing. Where the limit
    /// forbids that, the window is left compacted and the request is refused.
    pub fn make_room(&mut self, needed: usize) -> (r: Result<(), CapacityExceeded>)
        requires
            old(self).wf(),
        ensures
            final(self).wf(),
            r is Ok <==> old(self)@.fits(needed as nat),
            r is Ok ==> final(self)@ == old(self)@.make_room(needed as nat),
            r is Err ==> final(self)@ == old(self)@.compact(),
    {
        let tail: usize = self.free_tail();
        let free: usize = tail + self.reclaimable();
        if free < needed {
            self.compact();
            self.grow(needed - free)
        } else {
            if tail < needed {
                self.compact();
            }
            Ok(())
        }
    }

    /// Tries the parser on the unconsumed bytes. A message that it reads is
    /// consumed and returned; otherwise the window stays as it was.
    pub fn decode<'a, T: FromBytes<'a>>(&'a mut self) -> (r: Result<T, Error<T::Error>>)
        requires
            old(self).wf(),
        ensures
            final(self).wf(),
            match T::parse(old(self)@.unconsumed()) {
                ParseOutcome::Success { value, consumed } => {
                    &&& r == Ok::<T, Error<T::Error>>(value)
                    &&& consumed <= old(self)@.unconsumed().len()
                    &&& final(self)@ == old(self)@.advance_read(consumed)
                },
                ParseOutcome::NeedMore(hint) => r == Err::<T, Error<T::Error>>(
                    Error::Incomplete(hint),
                ) && final(self)@ == old(self)@,
                ParseOutcome::Malformed(cause) => r == Err::<T, Error<T::Error>>(
                    Error::Decode(cause),
                ) && final(self)@ == old(self)@,
            },
    {
        let input = vstd::slice::slice_subrange(self.buffer.as_slice(), self.read, self.write);
        match T::from_bytes(input) {
            Ok((tail, value)) => {
                self.read = self.write - tail.len();
                Ok(value)
            },
            Err(e) => Err(e),
        }
    }
}

} // verus!
