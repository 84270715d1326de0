//! What holds of decoding a whole message, whatever the source does.
//!
//! `run` is the caller's loop written as a mathematical function: `poll`,
//! and while the parser asks for more, `prepare`, one read, `supply`, and
//! `poll` again. The source is a sequence of bytes that it still holds and
//! hands out in pieces, and it is closed once it has handed out all of them.

use super::stream::{poll_step, poll_window, prepare_result, prepare_window, Step, StreamError};
use super::window::Window;
use super::{
    consumes_within, hint_is_lower_bound, obeys_parse_contract, FromBytes, Incomplete,
    ParseOutcome,
};
use vstd::prelude::*;

verus! {

/// How decoding one message ended.
pub struct Run<T, E> {
    /// The message, or why there is none.
    pub result: Result<T, StreamError<E>>,
    /// The window as it was left.
    pub window: Window,
    /// The bytes that the source still holds.
    pub pending: Seq<u8>,
    /// The sizes of the pieces that the source will hand out next.
    pub sizes: Seq<nat>,
}

impl<T, E> Run<T, E> {
    /// The bytes that no message has consumed yet, buffered or not.
    pub open spec fn stream(self) -> Seq<u8> {
        self.window.unconsumed() + self.pending
    }

    /// The parser made up its mind: a message came out, or the bytes were
    /// rejected.
    pub open spec fn settled(self) -> bool {
        self.result is Ok || self.result matches Err(StreamError::Decode(_))
    }
}

/// The number of bytes that one read delivers into a free tail of `room`
/// bytes, from a source that holds `pending` bytes and would hand out
/// `sizes[0]` of them: as many as it would, but at least one, and no more than
/// there is room for or than it holds. A source without a size to go by hands
/// out all that it can.
pub open spec fn delivered(sizes: Seq<nat>, room: nat, pending: nat) -> nat {
    let wish = if sizes.len() > 0 && sizes[0] > 0 {
        sizes[0]
    } else {
        pending
    };
    if wish <= room && wish <= pending {
        wish
    } else if room <= pending {
        room
    } else {
        pending
    }
}

/// The sizes that are left after one read.
pub open spec fn later(sizes: Seq<nat>) -> Seq<nat> {
    if sizes.len() > 0 {
        sizes.skip(1)
    } else {
        sizes
    }
}

/// Decoding one message from window `w` in front of a source that holds
/// `pending` and hands it out in pieces of the given sizes. A read that
/// delivers nothing stands for a closed source.
pub open spec fn run<'a, T: FromBytes<'a>>(w: Window, pending: Seq<u8>, sizes: Seq<nat>) -> Run<
    T,
    T::Error,
>
    decreases pending.len(),
{
    match poll_step::<T>(w) {
        Step::Done(value) => Run { result: Ok(value), window: poll_window::<T>(w), pending, sizes },
        Step::Failed(err) => Run { result: Err(err), window: poll_window::<T>(w), pending, sizes },
        Step::Fill(hint) => match prepare_result::<T::Error>(w, hint) {
            Err(err) => Run { result: Err(err), window: prepare_window(w, hint), pending, sizes },
            Ok(_) => {
                let room = prepare_window(w, hint);
                let n = delivered(sizes, room.free_tail(), pending.len());
                if n == 0 {
                    Run { result: Err(StreamError::Closed), window: room, pending, sizes }
                } else {
                    run::<T>(room.fill(pending.take(n as int)), pending.skip(n as int), later(sizes))
                }
            },
        },
    }
}

/// The result that a settled outcome of the parser stands for.
pub open spec fn result_of<T, E>(outcome: ParseOutcome<T, E>) -> Result<T, StreamError<E>> {
    match outcome {
        ParseOutcome::Success { value, .. } => Ok(value),
        ParseOutcome::Malformed(cause) => Err(StreamError::Decode(cause)),
        ParseOutcome::NeedMore(_) => Err(StreamError::Closed),
    }
}

/// The number of bytes that an outcome of the parser consumes.
pub open spec fn consumed_by<T, E>(outcome: ParseOutcome<T, E>) -> nat {
    match outcome {
        ParseOutcome::Success { consumed, .. } => consumed,
        _ => 0,
    }
}

/// Some beginning of `stream` that fits under `limit` is enough for the parser
/// to make up its mind.
pub open spec fn settles_within<'a, T: FromBytes<'a>>(stream: Seq<u8>, limit: nat) -> bool {
    exists|m: nat| m <= stream.len() && m <= limit && (#[trigger] T::parse(stream.take(m as int))).settled()
}

/// Where some beginning of the stream that fits under the window's limit
/// settles the parser, decoding comes to what parsing the whole stream at once
/// comes to, and consumes what that consumes, however the source cuts the
/// stream into pieces.
pub proof fn run_parses_the_stream<'a, T: FromBytes<'a>>(
    w: Window,
    pending: Seq<u8>,
    sizes: Seq<nat>,
)
    requires
        w.wf(),
        obeys_parse_contract::<T>(),
        settles_within::<T>(w.unconsumed() + pending, w.limit()),
    ensures
        T::parse(w.unconsumed() + pending).settled(),
        run::<T>(w, pending, sizes).result == result_of(T::parse(w.unconsumed() + pending)),
        consumed_by(T::parse(w.unconsumed() + pending)) <= (w.unconsumed() + pending).len(),
        run::<T>(w, pending, sizes).stream() == (w.unconsumed() + pending).skip(
            consumed_by(T::parse(w.unconsumed() + pending)) as int,
        ),
        run::<T>(w, pending, sizes).window.wf(),
        run::<T>(w, pending, sizes).window.ceiling == w.ceiling,
    decreases pending.len(),
{
    let stream = w.unconsumed() + pending;
    let span = w.unconsumed();
    let m = choose|m: nat|
        m <= stream.len() && m <= w.limit() && (#[trigger] T::parse(stream.take(m as int))).settled();
    assert(stream.take(m as int) + stream.skip(m as int) =~= stream);
    assert(T::parse(stream) == T::parse(stream.take(m as int)));
    match T::parse(span) {
        ParseOutcome::NeedMore(hint) => {
            let needed = hint.needed();
            if m <= span.len() {
                assert(stream.take(m as int) =~= span.take(m as int));
                assert(span.take(m as int) + span.skip(m as int) =~= span);
                assert(false);
            }
            let upto = stream.subrange(span.len() as int, m as int);
            assert(span + upto =~= stream.take(m as int));
            assert(needed <= upto.len());
            assert(w.fits(needed));
            w.make_room_keeps_unconsumed(needed);
            let room = w.make_room(needed);
            let n = delivered(sizes, room.free_tail(), pending.len());
            assert(n >= 1);
            let chunk = pending.take(n as int);
            room.fill_appends(chunk);
            let next = room.fill(chunk);
            let rest = pending.skip(n as int);
            assert(next.unconsumed() + rest =~= stream);
            assert(settles_within::<T>(next.unconsumed() + rest, next.limit()));
            run_parses_the_stream::<T>(next, rest, later(sizes));
        },
        _ => {
            assert(T::parse(span + pending) == T::parse(span));
            if let ParseOutcome::Success { consumed, .. } = T::parse(span) {
                w.advance_read_consumes(consumed);
                assert(span.skip(consumed as int) + pending =~= stream.skip(consumed as int));
            } else {
                assert(stream.skip(0) =~= stream);
            }
        },
    }
}

/// Where decoding ends with the parser settled, a beginning of the stream
/// that fits under the window's limit was enough to settle it.
pub proof fn settled_run_settles_within<'a, T: FromBytes<'a>>(
    w: Window,
    pending: Seq<u8>,
    sizes: Seq<nat>,
)
    requires
        w.wf(),
        run::<T>(w, pending, sizes).settled(),
    ensures
        settles_within::<T>(w.unconsumed() + pending, w.limit()),
    decreases pending.len(),
{
    let stream = w.unconsumed() + pending;
    let span = w.unconsumed();
    match T::parse(span) {
        ParseOutcome::NeedMore(hint) => {
            let needed = hint.needed();
            w.make_room_keeps_unconsumed(needed);
            let room = w.make_room(needed);
            let n = delivered(sizes, room.free_tail(), pending.len());
            let chunk = pending.take(n as int);
            room.fill_appends(chunk);
            let next = room.fill(chunk);
            let rest = pending.skip(n as int);
            assert(next.unconsumed() + rest =~= stream);
            settled_run_settles_within::<T>(next, rest, later(sizes));
        },
        _ => {
            assert(stream.take(span.len() as int) =~= span);
            assert(T::parse(stream.take(span.len() as int)).settled());
        },
    }
}

/// Incremental equivalence: what decoding yields depends on the bytes of the
/// stream and on the window's limit alone. How many of the bytes are buffered
/// already, and in what pieces the source hands out the others, changes neither
/// the message nor the bytes that are left after it.
pub proof fn incremental_equivalence<'a, T: FromBytes<'a>>(
    w1: Window,
    pending1: Seq<u8>,
    sizes1: Seq<nat>,
    w2: Window,
    pending2: Seq<u8>,
    sizes2: Seq<nat>,
)
    requires
        w1.wf(),
        w2.wf(),
        w1.ceiling == w2.ceiling,
        w1.unconsumed() + pending1 == w2.unconsumed() + pending2,
        obeys_parse_contract::<T>(),
    ensures
        run::<T>(w1, pending1, sizes1).settled() == run::<T>(w2, pending2, sizes2).settled(),
        run::<T>(w1, pending1, sizes1).settled() ==> {
            &&& run::<T>(w1, pending1, sizes1).result == run::<T>(w2, pending2, sizes2).result
            &&& run::<T>(w1, pending1, sizes1).stream() == run::<T>(w2, pending2, sizes2).stream()
        },
{
    if run::<T>(w1, pending1, sizes1).settled() {
        settled_run_settles_within::<T>(w1, pending1, sizes1);
    } else if run::<T>(w2, pending2, sizes2).settled() {
        settled_run_settles_within::<T>(w2, pending2, sizes2);
    }
    if settles_within::<T>(w1.unconsumed() + pending1, w1.limit()) {
        run_parses_the_stream::<T>(w1, pending1, sizes1);
        run_parses_the_stream::<T>(w2, pending2, sizes2);
    }
}

/// The messages that the first `count` rounds of decoding yield, up to the
/// first round that yields none.
pub open spec fn messages<'a, T: FromBytes<'a>>(
    w: Window,
    pending: Seq<u8>,
    sizes: Seq<nat>,
    count: nat,
) -> Seq<T>
    decreases count,
{
    if count == 0 {
        Seq::empty()
    } else {
        let first = run::<T>(w, pending, sizes);
        match first.result {
            Ok(value) => seq![value] + messages::<T>(
                first.window,
                first.pending,
                first.sizes,
                (count - 1) as nat,
            ),
            Err(_) => Seq::empty(),
        }
    }
}

/// Decoding leaves the window well formed and with the ceiling it had.
pub proof fn run_keeps_window<'a, T: FromBytes<'a>>(w: Window, pending: Seq<u8>, sizes: Seq<nat>)
    requires
        w.wf(),
        consumes_within::<T>(),
    ensures
        run::<T>(w, pending, sizes).window.wf(),
        run::<T>(w, pending, sizes).window.ceiling == w.ceiling,
    decreases pending.len(),
{
    let span = w.unconsumed();
    w.compact_keeps_unconsumed();
    match T::parse(span) {
        ParseOutcome::NeedMore(hint) => {
            let needed = hint.needed();
            if w.fits(needed) {
                w.make_room_keeps_unconsumed(needed);
                let room = w.make_room(needed);
                let n = delivered(sizes, room.free_tail(), pending.len());
                if n > 0 {
                    room.fill_appends(pending.take(n as int));
                    run_keeps_window::<T>(
                        room.fill(pending.take(n as int)),
                        pending.skip(n as int),
                        later(sizes),
                    );
                }
            }
        },
        ParseOutcome::Success { consumed, .. } => {
            w.advance_read_consumes(consumed);
        },
        ParseOutcome::Malformed(_) => {},
    }
}

/// The sequence of messages that comes out of a stream is the same however
/// the source cuts the stream into pieces, and however much of it is buffered
/// at the start.
pub proof fn same_stream_same_messages<'a, T: FromBytes<'a>>(
    w1: Window,
    pending1: Seq<u8>,
    sizes1: Seq<nat>,
    w2: Window,
    pending2: Seq<u8>,
    sizes2: Seq<nat>,
    count: nat,
)
    requires
        w1.wf(),
        w2.wf(),
        w1.ceiling == w2.ceiling,
        w1.unconsumed() + pending1 == w2.unconsumed() + pending2,
        obeys_parse_contract::<T>(),
    ensures
        messages::<T>(w1, pending1, sizes1, count) == messages::<T>(w2, pending2, sizes2, count),
    decreases count,
{
    if count > 0 {
        let first1 = run::<T>(w1, pending1, sizes1);
        let first2 = run::<T>(w2, pending2, sizes2);
        incremental_equivalence::<T>(w1, pending1, sizes1, w2, pending2, sizes2);
        if first1.result is Ok {
            run_keeps_window::<T>(w1, pending1, sizes1);
            run_keeps_window::<T>(w2, pending2, sizes2);
            same_stream_same_messages::<T>(
                first1.window,
                first1.pending,
                first1.sizes,
                first2.window,
                first2.pending,
                first2.sizes,
                (count - 1) as nat,
            );
        }
    }
}

/// The ceiling is enforced: where the parser asks for more bytes than the
/// ceiling allows in all, decoding ends at once with `OutOfMemory`. Nothing is
/// read and the window does not grow.
pub proof fn ceiling_is_enforced<'a, T: FromBytes<'a>>(
    w: Window,
    pending: Seq<u8>,
    sizes: Seq<nat>,
    n: usize,
    ceiling: nat,
)
    requires
        w.wf(),
        w.ceiling == Some(ceiling),
        T::parse(w.unconsumed()) == ParseOutcome::<T, T::Error>::NeedMore(Incomplete::Bytes(n)),
        ceiling < n,
    ensures
        run::<T>(w, pending, sizes).result == Err::<T, StreamError<T::Error>>(
            StreamError::OutOfMemory,
        ),
        run::<T>(w, pending, sizes).pending == pending,
        run::<T>(w, pending, sizes).window.capacity() == w.capacity(),
        run::<T>(w, pending, sizes).window.unconsumed() == w.unconsumed(),
{
    w.compact_keeps_unconsumed();
}

/// Every beginning of `stream` leaves the parser asking for more: the stream
/// ends before its first message does.
pub open spec fn ends_mid_message<'a, T: FromBytes<'a>>(stream: Seq<u8>) -> bool {
    forall|m: nat| m <= stream.len() ==> (#[trigger] T::parse(stream.take(m as int))) is NeedMore
}

/// A stream that ends before its first message does never yields a message,
/// and is never rejected as malformed.
pub proof fn partial_message_never_settles<'a, T: FromBytes<'a>>(
    w: Window,
    pending: Seq<u8>,
    sizes: Seq<nat>,
)
    requires
        w.wf(),
        ends_mid_message::<T>(w.unconsumed() + pending),
    ensures
        !run::<T>(w, pending, sizes).settled(),
{
    if run::<T>(w, pending, sizes).settled() {
        settled_run_settles_within::<T>(w, pending, sizes);
    }
}

/// Every request for more that the parser makes on a beginning of `stream`
/// that holds the first `from` bytes can be met under `limit`.
pub open spec fn hints_fit<'a, T: FromBytes<'a>>(stream: Seq<u8>, from: nat, limit: nat) -> bool {
    forall|m: nat|
        from <= m <= stream.len() ==> m + (#[trigger] T::parse(
            stream.take(m as int),
        )).hint().unwrap().needed() <= limit
}

/// End of input: where the source is closed before the first message is
/// complete, and the window could have taken what the parser asked for,
/// decoding ends with `Closed`, after the source has handed out all it held.
pub proof fn closed_source_is_reported<'a, T: FromBytes<'a>>(
    w: Window,
    pending: Seq<u8>,
    sizes: Seq<nat>,
)
    requires
        w.wf(),
        hint_is_lower_bound::<T>(),
        ends_mid_message::<T>(w.unconsumed() + pending),
        hints_fit::<T>(w.unconsumed() + pending, w.unconsumed().len(), w.limit()),
    ensures
        run::<T>(w, pending, sizes).result == Err::<T, StreamError<T::Error>>(StreamError::Closed),
        run::<T>(w, pending, sizes).pending.len() == 0,
        run::<T>(w, pending, sizes).stream() == w.unconsumed() + pending,
    decreases pending.len(),
{
    let stream = w.unconsumed() + pending;
    let span = w.unconsumed();
    assert(stream.take(span.len() as int) =~= span);
    let hint = T::parse(span)->NeedMore_0;
    let needed = hint.needed();
    w.make_room_keeps_unconsumed(needed);
    let room = w.make_room(needed);
    let n = delivered(sizes, room.free_tail(), pending.len());
    if n > 0 {
        let chunk = pending.take(n as int);
        room.fill_appends(chunk);
        let next = room.fill(chunk);
        let rest = pending.skip(n as int);
        assert(next.unconsumed() + rest =~= stream);
        closed_source_is_reported::<T>(next, rest, later(sizes));
    }
}

/// Growth: a window without a ceiling decodes any message that the source
/// delivers whole, however small the window was made.
pub proof fn unbounded_window_decodes<'a, T: FromBytes<'a>>(
    w: Window,
    pending: Seq<u8>,
    sizes: Seq<nat>,
)
    requires
        w.wf(),
        w.ceiling is None,
        obeys_parse_contract::<T>(),
        (w.unconsumed() + pending).len() <= usize::MAX,
        T::parse(w.unconsumed() + pending).settled(),
    ensures
        run::<T>(w, pending, sizes).result == result_of(T::parse(w.unconsumed() + pending)),
        run::<T>(w, pending, sizes).stream() == (w.unconsumed() + pending).skip(
            consumed_by(T::parse(w.unconsumed() + pending)) as int,
        ),
{
    let stream = w.unconsumed() + pending;
    assert(stream.take(stream.len() as int) =~= stream);
    run_parses_the_stream::<T>(w, pending, sizes);
}

/// Overflow: a window with a ceiling refuses a message that needs more bytes
/// than the ceiling, with `OutOfMemory`, where the source holds more than the
/// window may take.
pub proof fn bounded_window_overflows<'a, T: FromBytes<'a>>(
    w: Window,
    pending: Seq<u8>,
    sizes: Seq<nat>,
    ceiling: nat,
)
    requires
        w.wf(),
        w.ceiling == Some(ceiling),
        hint_is_lower_bound::<T>(),
        ceiling < (w.unconsumed() + pending).len(),
        ends_mid_message::<T>((w.unconsumed() + pending).take(ceiling as int)),
    ensures
        run::<T>(w, pending, sizes).result == Err::<T, StreamError<T::Error>>(
            StreamError::OutOfMemory,
        ),
        run::<T>(w, pending, sizes).window.capacity() <= ceiling,
    decreases pending.len(),
{
    let stream = w.unconsumed() + pending;
    let span = w.unconsumed();
    let head = stream.take(ceiling as int);
    assert(head.take(span.len() as int) =~= span);
    let hint = T::parse(span)->NeedMore_0;
    let needed = hint.needed();
    w.compact_keeps_unconsumed();
    if w.fits(needed) {
        w.make_room_keeps_unconsumed(needed);
        let room = w.make_room(needed);
        let n = delivered(sizes, room.free_tail(), pending.len());
        assert(n >= 1);
        let chunk = pending.take(n as int);
        room.fill_appends(chunk);
        let next = room.fill(chunk);
        let rest = pending.skip(n as int);
        assert(next.unconsumed() + rest =~= stream);
        bounded_window_overflows::<T>(next, rest, later(sizes), ceiling);
    }
}

} // verus!
