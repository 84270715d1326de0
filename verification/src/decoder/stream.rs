//! The stream filler: the decisions that turn the reads from a byte source
//! into messages.
//!
//! Reading from the source is the caller's part. The caller asks `poll` for a
//! message; where the parser needs more input it calls `prepare`, performs one
//! physical read into `read_target`, reports what the read returned to
//! `supply`, and asks again.

use super::window::{BufDecoder, Window};
use super::{Error, FromBytes, Incomplete, ParseOutcome};
use crate::io::IoError;
use vstd::prelude::*;

verus! {

/// Why no message came out of the stream.
#[derive(Debug)]
pub enum StreamError<T> {
    /// The source failed; its error is handed on as it came.
    Read(IoError),
    /// The source was closed before the message was complete.
    Closed,
    /// The bytes can never become a message.
    Decode(T),
    /// The message needs more room than the window may take.
    OutOfMemory,
}

impl<T> From<IoError> for StreamError<T> {
    fn from(err: IoError) -> (r: Self) {
        StreamError::Read(err)
    }
}

impl<T> vstd::std_specs::convert::FromSpecImpl<IoError> for StreamError<T> {
    open spec fn obeys_from_spec() -> bool {
        true
    }

    open spec fn from_spec(err: IoError) -> Self {
        StreamError::Read(err)
    }
}

/// What one try of the parser on the buffered bytes came to.
#[derive(Debug)]
pub enum Step<T, E> {
    /// A message was read and its bytes were consumed.
    Done(T),
    /// The message is not complete: more bytes have to be read first.
    Fill(Incomplete),
    /// The bytes can never become a message.
    Failed(StreamError<E>),
}

/// What `poll` returns on window `w`.
pub open spec fn poll_step<'a, T: FromBytes<'a>>(w: Window) -> Step<T, T::Error> {
    match T::parse(w.unconsumed()) {
        ParseOutcome::Success { value, .. } => Step::Done(value),
        ParseOutcome::NeedMore(hint) => Step::Fill(hint),
        ParseOutcome::Malformed(cause) => Step::Failed(StreamError::Decode(cause)),
    }
}

/// The window that `poll` leaves behind on window `w`.
pub open spec fn poll_window<'a, T: FromBytes<'a>>(w: Window) -> Window {
    match T::parse(w.unconsumed()) {
        ParseOutcome::Success { consumed, .. } => w.advance_read(consumed),
        _ => w,
    }
}

/// What `prepare` returns on window `w`: the bytes that `hint` asks for
/// either fit under the window's limit beside the unconsumed ones, or the
/// message is too large.
pub open spec fn prepare_result<E>(w: Window, hint: Incomplete) -> Result<(), StreamError<E>> {
    if w.fits(hint.needed()) {
        Ok(())
    } else {
        Err(StreamError::OutOfMemory)
    }
}

/// The window that `prepare` leaves behind on window `w`.
pub open spec fn prepare_window(w: Window, hint: Incomplete) -> Window {
    if w.fits(hint.needed()) {
        w.make_room(hint.needed())
    } else {
        w.compact()
    }
}

/// What `supply` returns for the outcome of a physical read.
pub open spec fn supply_result<E>(outcome: Result<usize, IoError>) -> Result<(), StreamError<E>> {
    match outcome {
        Ok(n) => if n == 0 {
            Err(StreamError::Closed)
        } else {
            Ok(())
        },
        Err(e) => Err(StreamError::Read(e)),
    }
}

/// The window that `supply` leaves behind on window `w`.
pub open spec fn supply_window(w: Window, outcome: Result<usize, IoError>) -> Window {
    match outcome {
        Ok(n) => w.append_from_source(n as nat),
        Err(_) => w,
    }
}

/// A window in front of a byte source of type `R`.
#[derive(Debug)]
pub struct BufStreamDecoder<R> {
    inner: BufDecoder,
    reader: R,
}

impl<R> BufStreamDecoder<R> {
    /// The window, as a mathematical value.
    pub closed spec fn window(&self) -> Window {
        self.inner@
    }

    /// The byte source.
    pub closed spec fn source(&self) -> R {
        self.reader
    }

    /// The invariant of the decoder: that of its window.
    pub open spec fn wf(&self) -> bool {
        self.window().wf()
    }

    /// A decoder for `reader` with an empty window of `size` bytes that grows
    /// as far as messages need.
    pub fn new(reader: R, size: usize) -> (r: Self)
        ensures
            r.wf(),
            r.source() == reader,
            r.window() == Window::empty(size as nat, None),
    {
        BufStreamDecoder { inner: BufDecoder::new(size), reader }
    }

    /// A decoder for `reader` with an empty window of `size` bytes whose
    /// capacity never exceeds `ceiling`.
    pub fn with_ceiling(reader: R, size: usize, ceiling: usize) -> (r: Self)
        ensures
            r.wf(),
            r.source() == reader,
            r.window() == Window::empty(
                if size <= ceiling { size as nat } else { ceiling as nat },
                Some(ceiling as nat),
            ),
    {
        BufStreamDecoder { inner: BufDecoder::with_ceiling(size, ceiling), reader }
    }

    /// The window, to look at.
    pub fn buffer(&self) -> (r: &BufDecoder)
        ensures
            r@ == self.window(),
    {
        &self.inner
    }

    /// Tries the parser on the buffered bytes. A message is consumed and
    /// returned; a parser that can never succeed ends the decoding; one that
    /// needs more input leaves the window as it was.
    pub fn poll<'a, T: FromBytes<'a>>(&'a mut self) -> (r: Step<T, T::Error>)
        requires
            old(self).wf(),
        ensures
            final(self).wf(),
            final(self).source() == old(self).source(),
            r == poll_step::<T>(old(self).window()),
            final(self).window() == poll_window::<T>(old(self).window()),
    {
        match self.inner.decode::<T>() {
            Ok(value) => Step::Done(value),
            Err(Error::Incomplete(hint)) => Step::Fill(hint),
            Err(Error::Decode(cause)) => Step::Failed(StreamError::Decode(cause)),
        }
    }

    /// Makes room in the window for the bytes that `hint` asks for, so that
    /// one physical read can deliver them in one piece. Where the window may
    /// not take that many, decoding ends.
    pub fn prepare<E>(&mut self, hint: Incomplete) -> (r: Result<(), StreamError<E>>)
        requires
            old(self).wf(),
        ensures
            final(self).wf(),
            final(self).source() == old(self).source(),
            r == prepare_result::<E>(old(self).window(), hint),
            final(self).window() == prepare_window(old(self).window(), hint),
    {
        let needed: usize = match hint.as_option() {
            Some(n) => n,
            None => 1,
        };
        match self.inner.make_room(needed) {
            Ok(()) => Ok(()),
            Err(_) => Err(StreamError::OutOfMemory),
        }
    }

    /// The source and the free tail of the window, for one physical read from
    /// the one into the other.
    pub fn read_target(&mut self) -> (r: (&mut R, &mut [u8]))
        requires
            old(self).wf(),
        ensures
            *r.0 == old(self).source(),
            r.1@ == old(self).window().tail(),
            final(self).source() == *final(r.0),
            final(self).window() == old(self).window().with_tail(final(r.1)@),
            final(r.1)@.len() == r.1@.len() ==> final(self).wf(),
    {
        (&mut self.reader, self.inner.free_tail_mut())
    }

    /// Takes note of what the physical read returned. Bytes that it delivered
    /// to the front of the free tail are counted as written. A read of no
    /// bytes means that the source is closed, and ends the decoding, as does a
    /// read that failed.
    pub fn supply<E>(&mut self, outcome: Result<usize, IoError>) -> (r: Result<
        (),
        StreamError<E>,
    >)
        requires
            old(self).wf(),
            outcome matches Ok(n) ==> n <= old(self).window().free_tail(),
        ensures
            final(self).wf(),
            final(self).source() == old(self).source(),
            r == supply_result::<E>(outcome),
            final(self).window() == supply_window(old(self).window(), outcome),
    {
        match outcome {
            Ok(n) => {
                if n == 0 {
                    Err(StreamError::Closed)
                } else {
                    self.inner.append_from_source(n);
                    Ok(())
                }
            },
            Err(e) => Err(StreamError::Read(e)),
        }
    }
}

} // verus!
