//! Encoder and decoder together: what is staged for the sink on one side is
//! the message that comes out of the stream on the other.

use crate::decoder::laws::{messages, run, run_parses_the_stream};
use crate::decoder::stream::StreamError;
use crate::decoder::window::Window;
use crate::decoder::{obeys_parse_contract, FromBytes, ParseOutcome};
use crate::encoder::ToBytes;
use vstd::prelude::*;

verus! {

/// The parser and the serializer of `M` are a pair on the value `v`: the
/// value has an encoding, and parsing the encoding yields the value and
/// consumes all of it.
pub open spec fn round_trips<'a, M: FromBytes<'a> + ToBytes>(v: M) -> bool {
    &&& v.encoding() is Some
    &&& M::parse(v.encoding().unwrap()) == ParseOutcome::<M, M::Error>::Success {
        value: v,
        consumed: v.encoding().unwrap().len(),
    }
}

/// The bytes on the wire after the frames of the given messages were written
/// to it one after the other.
pub open spec fn wire<M: ToBytes>(sent: Seq<M>) -> Seq<u8>
    decreases sent.len(),
{
    if sent.len() == 0 {
        Seq::empty()
    } else {
        sent[0].encoding().unwrap() + wire(sent.skip(1))
    }
}

/// Round trip: where the parser and the serializer of a message type are a
/// pair on `v`, a stream that begins with the frame staged for `v` yields `v`,
/// and what is left of the stream is what followed the frame. It does so
/// however the source cuts the stream into pieces, as long as the window may
/// hold the frame.
pub proof fn round_trip<'a, M: FromBytes<'a> + ToBytes>(
    v: M,
    more: Seq<u8>,
    w: Window,
    pending: Seq<u8>,
    sizes: Seq<nat>,
)
    requires
        w.wf(),
        obeys_parse_contract::<M>(),
        round_trips(v),
        w.unconsumed() + pending == v.encoding().unwrap() + more,
        v.encoding().unwrap().len() <= w.limit(),
    ensures
        run::<M>(w, pending, sizes).result == Ok::<M, StreamError<M::Error>>(v),
        run::<M>(w, pending, sizes).stream() == more,
        run::<M>(w, pending, sizes).window.wf(),
        run::<M>(w, pending, sizes).window.ceiling == w.ceiling,
{
    let frame = v.encoding().unwrap();
    let stream = w.unconsumed() + pending;
    assert(stream.take(frame.len() as int) =~= frame);
    assert(M::parse(stream.take(frame.len() as int)).settled());
    assert(M::parse(frame + more) == M::parse(frame));
    run_parses_the_stream::<M>(w, pending, sizes);
    assert(stream.skip(frame.len() as int) =~= more);
}

/// The frames of messages that were written to the wire one after the other
/// come out of the stream as the same messages in the same order.
pub proof fn frames_arrive_in_order<'a, M: FromBytes<'a> + ToBytes>(
    sent: Seq<M>,
    w: Window,
    pending: Seq<u8>,
    sizes: Seq<nat>,
)
    requires
        w.wf(),
        obeys_parse_contract::<M>(),
        forall|i: int| 0 <= i < sent.len() ==> round_trips(#[trigger] sent[i]),
        forall|i: int|
            0 <= i < sent.len() ==> (#[trigger] sent[i]).encoding().unwrap().len() <= w.limit(),
        w.unconsumed() + pending == wire(sent),
    ensures
        messages::<M>(w, pending, sizes, sent.len()) == sent,
    decreases sent.len(),
{
    if sent.len() > 0 {
        let first = run::<M>(w, pending, sizes);
        let later = sent.skip(1);
        round_trip::<M>(sent[0], wire(later), w, pending, sizes);
        assert forall|i: int| 0 <= i < later.len() implies round_trips(#[trigger] later[i]) by {
            assert(later[i] == sent[i + 1]);
        }
        assert forall|i: int| 0 <= i < later.len() implies (#[trigger] later[i]).encoding().unwrap().len()
            <= first.window.limit() by {
            assert(later[i] == sent[i + 1]);
        }
        frames_arrive_in_order::<M>(later, first.window, first.pending, first.sizes);
        assert(seq![sent[0]] + later =~= sent);
    } else {
        assert(messages::<M>(w, pending, sizes, 0) =~= sent);
    }
}

} // verus!
