//! The byte sink encoder: one message is staged, then written to the sink in
//! one piece.
//!
//! Writing to the sink is the caller's part: it calls `stage`, and then writes
//! the frame of `write_target` to the sink of `write_target`.

use super::{Staged, StagingBuffer, ToBytes};
use crate::io::IoError;
use vstd::prelude::*;

verus! {

/// A staging buffer in front of a byte sink of type `W`.
#[derive(Debug)]
pub struct BufEncoder<W> {
    buffer: StagingBuffer,
    writer: W,
}

impl<W> BufEncoder<W> {
    /// The staging buffer, as a mathematical value.
    pub closed spec fn staging(&self) -> Staged {
        self.buffer@
    }

    /// The byte sink.
    pub closed spec fn sink(&self) -> W {
        self.writer
    }

    /// The frame that is staged for the sink.
    pub open spec fn staged(&self) -> Seq<u8> {
        self.staging().frame()
    }

    /// An encoder for `writer` with nothing staged.
    pub fn new(writer: W) -> (r: BufEncoder<W>)
        ensures
            r.sink() == writer,
            r.staging() == (Staged { bytes: Seq::empty(), position: 0 }),
    {
        BufEncoder { buffer: StagingBuffer::new(), writer }
    }

    /// Stages `message`: rewinds the staging buffer and serializes the message
    /// into it. Returns the length of the frame, which is then the encoding of
    /// the message. A message that cannot be serialized is reported, and the
    /// frame is then empty: no part of the message can reach the sink.
    pub fn stage<M: ToBytes>(&mut self, message: &M) -> (r: Result<usize, IoError>)
        ensures
            final(self).sink() == old(self).sink(),
            r is Err ==> final(self).staged() == Seq::<u8>::empty(),
            r is Ok <==> message.encoding() is Some && message.encoding().unwrap().len()
                <= usize::MAX,
            r matches Ok(n) ==> n == message.encoding().unwrap().len() && final(self).staged()
                == message.encoding().unwrap() && final(self).staging() == old(
                self,
            ).staging().seek(0).write(message.encoding().unwrap()),
    {
        self.buffer.rewind();
        match message.to_bytes(&mut self.buffer) {
            Ok(_) => {
                let n: usize = self.buffer.position();
                assert(self.staged() =~= message.encoding().unwrap());
                Ok(n)
            },
            Err(e) => {
                self.buffer.rewind();
                assert(self.staged() =~= Seq::<u8>::empty());
                Err(e)
            },
        }
    }

    /// The sink and the staged frame, for one write of the one to the other.
    pub fn write_target(&mut self) -> (r: (&mut W, &[u8]))
        ensures
            *r.0 == old(self).sink(),
            r.1@ == old(self).staged(),
            final(self).sink() == *final(r.0),
            final(self).staging() == old(self).staging(),
    {
        (&mut self.writer, self.buffer.frame())
    }
}

} // verus!
