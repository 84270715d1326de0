//! The serialization contract, and the staging buffer that a message is
//! serialized into before it goes to the sink in one piece.

use crate::decoder::window::zeros;
use crate::io::{invalid_input, IoError};
use vstd::prelude::*;

pub mod stream;

verus! {

/// The staging buffer as a mathematical value: the bytes it holds and the
/// position at which the next write begins.
pub struct Staged {
    pub bytes: Seq<u8>,
    pub position: nat,
}

impl Staged {
    /// The bytes in front of the position, or all of them where the position
    /// lies behind their end: what has been written since the position was
    /// last at the start, where no write was followed by a seek.
    pub open spec fn frame(self) -> Seq<u8> {
        if self.position <= self.bytes.len() {
            self.bytes.take(self.position as int)
        } else {
            self.bytes
        }
    }

    /// The bytes, with zero bytes added up to the position where it lies
    /// behind their end.
    pub open spec fn padded(self) -> Seq<u8> {
        if self.position > self.bytes.len() {
            self.bytes + zeros((self.position - self.bytes.len()) as nat)
        } else {
            self.bytes
        }
    }

    /// The buffer after `data` was written at the position. The write replaces
    /// the bytes that it covers, lengthens the buffer where it reaches past its
    /// end, and leaves the position behind the last byte written.
    pub open spec fn write(self, data: Seq<u8>) -> Staged {
        let end = self.position + data.len();
        Staged {
            bytes: self.padded().take(self.position as int) + data + if end < self.padded().len() {
                self.padded().skip(end as int)
            } else {
                Seq::empty()
            },
            position: end,
        }
    }

    /// The buffer with its position moved to `position`.
    pub open spec fn seek(self, position: nat) -> Staged {
        Staged { position, ..self }
    }
}

/// A byte buffer with a position, which writes go to and which can be moved.
/// It is reused from one message to the next: rewinding keeps the bytes and
/// the memory.
#[derive(Debug)]
pub struct StagingBuffer {
    buffer: Vec<u8>,
    position: usize,
}

impl View for StagingBuffer {
    type V = Staged;

    closed spec fn view(&self) -> Staged {
        Staged { bytes: self.buffer@, position: self.position as nat }
    }
}

impl StagingBuffer {
    /// An empty buffer with its position at the start.
    pub fn new() -> (r: Self)
        ensures
            r@ == (Staged { bytes: Seq::empty(), position: 0 }),
    {
        StagingBuffer { buffer: Vec::new(), position: 0 }
    }

    /// The position at which the next write begins.
    pub fn position(&self) -> (r: usize)
        ensures
            r == self@.position,
    {
        self.position
    }

    /// Moves the position, for a later write to replace what was written
    /// there, or to carry on behind it.
    pub fn seek(&mut self, position: usize)
        ensures
            final(self)@ == old(self)@.seek(position as nat),
    {
        self.position = position;
    }

    /// Moves the position to the start. The bytes stay.
    pub fn rewind(&mut self)
        ensures
            final(self)@ == old(self)@.seek(0),
    {
        self.position = 0;
    }

    /// All the bytes of the buffer.
    pub fn get_ref(&self) -> (r: &[u8])
        ensures
            r@ == self@.bytes,
    {
        self.buffer.as_slice()
    }

    /// The bytes in front of the position, or all of them where the position
    /// lies behind their end.
    pub fn frame(&self) -> (r: &[u8])
        ensures
            r@ == self@.frame(),
    {
        let end: usize = if self.position <= self.buffer.len() {
            self.position
        } else {
            self.buffer.len()
        };
        let r = vstd::slice::slice_subrange(self.buffer.as_slice(), 0, end);
        assert(r@ =~= self@.bytes.take(end as int));
        r
    }

    /// Writes all of `data` at the position and moves the position behind it.
    /// A write whose end would lie past the largest position that the machine
    /// can express is refused, and changes nothing.
    pub fn write_all(&mut self, data: &[u8]) -> (r: Result<(), IoError>)
        ensures
            r is Ok <==> old(self)@.position + data@.len() <= usize::MAX,
            r is Ok ==> final(self)@ == old(self)@.write(data@),
            r is Err ==> final(self)@ == old(self)@,
    {
        let ghost before = self@;
        let start: usize = self.position;
        if data.len() > usize::MAX - start {
            return Err(invalid_input());
        }
        if start > self.buffer.len() {
            self.buffer.resize(start, 0u8);
            assert(self.buffer@ =~= before.padded());
        }
        let ghost padded = self.buffer@;
        let stays: usize = self.buffer.len() - start;
        let over: usize = if data.len() <= stays {
            data.len()
        } else {
            stays
        };
        let mut i: usize = 0;
        while i < over
            invariant
                i <= over,
                over <= data@.len(),
                start + over <= self.buffer@.len() <= usize::MAX,
                self.buffer@.len() == padded.len(),
                self.position == start,
                forall|j: int| 0 <= j < start ==> self.buffer@[j] == padded[j],
                forall|j: int| start <= j < start + i ==> self.buffer@[j] == data@[j - start],
                forall|j: int| start + i <= j < padded.len() ==> self.buffer@[j] == padded[j],
            decreases over - i,
        {
            let byte: u8 = data[i];
            self.buffer[start + i] = byte;
            i += 1;
        }
        let rest = vstd::slice::slice_subrange(data, over, data.len());
        self.buffer.extend_from_slice(rest);
        self.position = start + data.len();
        assert(self@.bytes =~= before.write(data@).bytes);
        Ok(())
    }
}

/// A message type that can write itself into a staging buffer.
pub trait ToBytes {
    /// The bytes that stand for the value; `None` for a value that has no
    /// encoding.
    ///
    /// An implementation that is verified defines it. The body here leaves it
    /// open, so that code which is not verified can implement the trait by
    /// writing `to_bytes` alone.
    open spec fn encoding(&self) -> Option<Seq<u8>> {
        arbitrary()
    }

    /// Writes the encoding of the value at the position of `writer`, leaves
    /// the position behind it, and returns its length. It may move the
    /// position on the way, to fill in a length once the body is written.
    ///
    /// A value that has an encoding which ends within the positions that the
    /// machine can express is always written.
    fn to_bytes(&self, writer: &mut StagingBuffer) -> (r: Result<usize, IoError>)
        ensures
            r is Ok <==> self.encoding() is Some && old(writer)@.position
                + self.encoding().unwrap().len() <= usize::MAX,
            r matches Ok(n) ==> n == self.encoding().unwrap().len() && final(writer)@ == old(
                writer,
            )@.write(self.encoding().unwrap()),
    ;
}

} // verus!
