//! The parse contract: how a message type reads itself from a window of bytes.

use vstd::prelude::*;

pub mod laws;
pub mod stream;
pub mod window;

pub use window::BufDecoder;

verus! {

/// A parser's request for more input.
#[derive(Debug, Copy, Clone, PartialEq, Eq, Structural)]
pub enum Incomplete {
    /// At least one more byte; the parser cannot say how many.
    Unknown,
    /// At least this many more bytes: with fewer the parser would ask again.
    Bytes(usize),
}

impl Incomplete {
    /// The number of bytes to wait for before the parser is tried again: the
    /// count of the hint, or one where it gives none.
    pub open spec fn needed(self) -> nat {
        match self {
            Incomplete::Unknown => 1,
            Incomplete::Bytes(n) => n as nat,
        }
    }

    /// The byte count of the hint, if it carries one.
    pub fn as_option(self) -> (r: Option<usize>)
        ensures
            r == (match self {
                Incomplete::Unknown => None::<usize>,
                Incomplete::Bytes(n) => Some(n),
            }),
            r.unwrap_or(1) == self.needed(),
    {
        match self {
            Incomplete::Unknown => None,
            Incomplete::Bytes(n) => Some(n),
        }
    }
}

/// Why `from_bytes` returned no value.
#[derive(Debug)]
pub enum Error<T> {
    /// The input ends before the message does.
    Incomplete(Incomplete),
    /// The input can never become a message, whatever follows it.
    Decode(T),
}

/// What parsing a sequence of bytes yields, as a mathematical value.
pub enum ParseOutcome<V, E> {
    /// A message was read from the first `consumed` bytes.
    Success { value: V, consumed: nat },
    /// The bytes are the beginning of a message that has not ended yet.
    NeedMore(Incomplete),
    /// The bytes are not the beginning of any message.
    Malformed(E),
}

impl<V, E> ParseOutcome<V, E> {
    /// The parser has made up its mind: more input would not change the answer.
    pub open spec fn settled(self) -> bool {
        !(self is NeedMore)
    }

    /// The request for more input, where the outcome is one.
    pub open spec fn hint(self) -> Option<Incomplete> {
        match self {
            ParseOutcome::NeedMore(hint) => Some(hint),
            _ => None,
        }
    }
}

/// The outcome that a result of `from_bytes` on `input` stands for.
pub open spec fn outcome_of<T, E>(input: Seq<u8>, r: Result<(&[u8], T), Error<E>>) -> ParseOutcome<
    T,
    E,
> {
    match r {
        Ok((tail, value)) => ParseOutcome::Success {
            value,
            consumed: (input.len() - tail@.len()) as nat,
        },
        Err(Error::Incomplete(hint)) => ParseOutcome::NeedMore(hint),
        Err(Error::Decode(cause)) => ParseOutcome::Malformed(cause),
    }
}

/// A message type that can be read from the front of a byte slice. The value
/// may borrow from the slice.
pub trait FromBytes<'bytes>: Sized {
    /// Why a sequence of bytes is rejected.
    type Error;

    /// What parsing `input` yields. This is the whole contract of
    /// `from_bytes`: the same bytes always give the same outcome.
    ///
    /// An implementation that is verified defines it. The body here leaves the
    /// outcome open, so that code which is not verified can implement the
    /// trait by writing `from_bytes` alone.
    open spec fn parse(input: Seq<u8>) -> ParseOutcome<Self, Self::Error> {
        arbitrary()
    }

    /// Reads one message from the front of `input` and returns it with the
    /// rest of `input`.
    fn from_bytes(input: &'bytes [u8]) -> (r: Result<(&'bytes [u8], Self), Error<Self::Error>>)
        ensures
            Self::parse(input@) == outcome_of(input@, r),
            r matches Ok((tail, _)) ==> tail@.len() <= input@.len() && tail@ == input@.skip(
                input@.len() - tail@.len(),
            ),
    ;

    /// The request for more input that `from_bytes` would make on `input`, if
    /// it would make one. Implement this where the answer can be had without
    /// building the value.
    fn check(input: &'bytes [u8]) -> (r: Option<Incomplete>)
        ensures
            r == Self::parse(input@).hint(),
    {
        if let Err(Error::Incomplete(n)) = Self::from_bytes(input) {
            Some(n)
        } else {
            None
        }
    }
}

/// A success never claims more bytes than it was given.
pub open spec fn consumes_within<'a, T: FromBytes<'a>>() -> bool {
    forall|s: Seq<u8>|
        (#[trigger] T::parse(s)) matches ParseOutcome::Success { consumed, .. } ==> consumed
            <= s.len()
}

/// Once the parser has made up its mind, bytes that follow change nothing:
/// it asks for more rather than deciding on too little.
pub open spec fn settled_is_final<'a, T: FromBytes<'a>>() -> bool {
    forall|s: Seq<u8>, t: Seq<u8>|
        T::parse(s).settled() ==> #[trigger] T::parse(s + t) == T::parse(s)
}

/// A hint never asks for too much: it asks for at least one byte, and with
/// fewer bytes than it names the parser would still ask for more.
pub open spec fn hint_is_lower_bound<'a, T: FromBytes<'a>>() -> bool {
    &&& forall|s: Seq<u8>| (#[trigger] T::parse(s)) matches ParseOutcome::NeedMore(hint) ==> 1 <= hint.needed()
    &&& forall|s: Seq<u8>, t: Seq<u8>|
        T::parse(s) matches ParseOutcome::NeedMore(hint) && t.len() < hint.needed() ==> (#[trigger] T::parse(
            s + t,
        )) is NeedMore
}

/// The parser keeps the parse contract.
pub open spec fn obeys_parse_contract<'a, T: FromBytes<'a>>() -> bool {
    &&& consumes_within::<T>()
    &&& settled_is_final::<T>()
    &&& hint_is_lower_bound::<T>()
}

} // verus!
