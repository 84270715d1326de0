//! The duplex service loop: the decisions of one session.
//!
//! A session races two operations: decoding the next request, and the
//! handler's production of the next response. Running them is the caller's
//! part. Each time one of the two completes the caller hands the completion to
//! `dispatch`, does what it says, and starts that operation again; the other
//! one stays as it is.

use crate::decoder::stream::StreamError;
use vstd::prelude::*;

verus! {

/// What the handler tells the loop once a response was written.
#[derive(Debug, Copy, Clone, PartialEq, Eq, Structural)]
pub enum ControlSignal {
    /// Go on with the session.
    Continue,
    /// End the session.
    Stop,
}

/// Why a session ended otherwise than by the handler's wish.
#[derive(Debug)]
pub enum ServiceError<D, H> {
    /// No further request can be decoded: the source is closed or failed, or
    /// it delivered bytes that are no request.
    Decoder(StreamError<D>),
    /// The handler failed, or the sink did while the handler wrote to it.
    Handler(H),
}

/// The operation that completed first in one round of the race.
#[derive(Debug)]
pub enum Completion<Q, D, H> {
    /// Decoding completed, with a request or without one.
    Decoded(Result<Q, StreamError<D>>),
    /// The handler's production completed, with a response written or with an
    /// error.
    Produced(Result<ControlSignal, H>),
}

/// What the loop does after a completion.
#[derive(Debug)]
pub enum Action<Q, D, H> {
    /// Hand the request to the handler, then go on.
    Consume(Q),
    /// Go on: a response was written.
    Continue,
    /// End the session and return this to the host.
    Exit(Result<(), ServiceError<D, H>>),
}

/// The action that follows a completion.
pub open spec fn action_of<Q, D, H>(completion: Completion<Q, D, H>) -> Action<Q, D, H> {
    match completion {
        Completion::Decoded(Ok(request)) => Action::Consume(request),
        Completion::Decoded(Err(err)) => Action::Exit(Err(ServiceError::Decoder(err))),
        Completion::Produced(Ok(ControlSignal::Continue)) => Action::Continue,
        Completion::Produced(Ok(ControlSignal::Stop)) => Action::Exit(Ok(())),
        Completion::Produced(Err(err)) => Action::Exit(Err(ServiceError::Handler(err))),
    }
}

/// Decides what the loop does after a completion: a request goes to the
/// handler, a written response lets the session go on, and a failure on
/// either side or the handler's wish to stop ends the session.
pub fn dispatch<Q, D, H>(completion: Completion<Q, D, H>) -> (action: Action<Q, D, H>)
    ensures
        action == action_of(completion),
{
    match completion {
        Completion::Decoded(Ok(request)) => Action::Consume(request),
        Completion::Decoded(Err(err)) => Action::Exit(Err(ServiceError::Decoder(err))),
        Completion::Produced(Ok(ControlSignal::Continue)) => Action::Continue,
        Completion::Produced(Ok(ControlSignal::Stop)) => Action::Exit(Ok(())),
        Completion::Produced(Err(err)) => Action::Exit(Err(ServiceError::Handler(err))),
    }
}

/// What a session has done so far.
pub struct Record<Q, D, H> {
    /// The requests that went to the handler, in the order in which they went.
    pub consumed: Seq<Q>,
    /// The number of responses that were written.
    pub responses: nat,
    /// How the session ended, once it has.
    pub exit: Option<Result<(), ServiceError<D, H>>>,
}

/// The record of a session in which the given completions came in, in that
/// order. Completions that come in after the session ended change nothing.
pub open spec fn session<Q, D, H>(completions: Seq<Completion<Q, D, H>>) -> Record<Q, D, H>
    decreases completions.len(),
{
    if completions.len() == 0 {
        Record { consumed: Seq::empty(), responses: 0, exit: None }
    } else {
        let before = session(completions.drop_last());
        if before.exit is Some {
            before
        } else {
            match action_of(completions.last()) {
                Action::Consume(request) => Record {
                    consumed: before.consumed.push(request),
                    ..before
                },
                Action::Continue => Record { responses: before.responses + 1, ..before },
                Action::Exit(how) => Record { exit: Some(how), ..before },
            }
        }
    }
}

/// The requests among the completions, in the order in which they came in.
pub open spec fn requests<Q, D, H>(completions: Seq<Completion<Q, D, H>>) -> Seq<Q>
    decreases completions.len(),
{
    if completions.len() == 0 {
        Seq::empty()
    } else {
        match completions.last() {
            Completion::Decoded(Ok(request)) => requests(completions.drop_last()).push(request),
            _ => requests(completions.drop_last()),
        }
    }
}

/// The number of completions up to the one that ends the session, that one
/// left out; all of them where none does.
pub open spec fn lifetime<Q, D, H>(completions: Seq<Completion<Q, D, H>>) -> nat
    decreases completions.len(),
{
    if completions.len() == 0 {
        0
    } else {
        let before = lifetime(completions.drop_last());
        if before < completions.len() - 1 {
            before
        } else if action_of(completions.last()) is Exit {
            before
        } else {
            before + 1
        }
    }
}

/// Requests reach the handler strictly in arrival order: the handler consumes
/// the requests that were decoded before the session ended, each once, in the
/// order in which they were decoded, however the responses fall between them.
pub proof fn requests_arrive_in_order<Q, D, H>(completions: Seq<Completion<Q, D, H>>)
    ensures
        lifetime(completions) <= completions.len(),
        session(completions).exit is None <==> lifetime(completions) == completions.len(),
        session(completions).consumed == requests(completions.take(lifetime(completions) as int)),
    decreases completions.len(),
{
    if completions.len() == 0 {
        assert(completions.take(0) =~= completions);
    } else {
        let front = completions.drop_last();
        requests_arrive_in_order(front);
        let live = lifetime(front);
        if live < front.len() {
            assert(completions.take(live as int) =~= front.take(live as int));
        } else {
            assert(front.take(live as int) =~= front);
            if action_of(completions.last()) is Exit {
                assert(completions.take(live as int) =~= front);
            } else {
                assert(completions.take((live + 1) as int) =~= completions);
            }
        }
    }
}

/// A handler that answers every request with the request itself: what it has
/// consumed and not yet answered, and what it has answered.
pub struct Echo<Q> {
    pub waiting: Seq<Q>,
    pub sent: Seq<Q>,
}

/// The state of the echoing handler in a session in which the given
/// completions came in. A production that completes finds the oldest waiting
/// request and sends it; it cannot complete while none is waiting.
pub open spec fn echo<Q, D, H>(completions: Seq<Completion<Q, D, H>>) -> Echo<Q>
    decreases completions.len(),
{
    if completions.len() == 0 {
        Echo { waiting: Seq::empty(), sent: Seq::empty() }
    } else {
        let before = echo(completions.drop_last());
        if session(completions.drop_last()).exit is Some {
            before
        } else {
            match action_of(completions.last()) {
                Action::Consume(request) => Echo { waiting: before.waiting.push(request), ..before },
                Action::Continue => if before.waiting.len() > 0 {
                    Echo { waiting: before.waiting.skip(1), sent: before.sent.push(before.waiting[0]) }
                } else {
                    before
                },
                Action::Exit(_) => before,
            }
        }
    }
}

/// Responses leave in the order of the requests: what the echoing handler has
/// sent, followed by what still waits in it, is what it has consumed. So once
/// it has sent as many responses as it consumed requests, the responses are
/// the requests, in the same order, however productions and requests were
/// interleaved.
pub proof fn echo_keeps_order<Q, D, H>(completions: Seq<Completion<Q, D, H>>)
    ensures
        echo(completions).sent + echo(completions).waiting == session(completions).consumed,
        echo(completions).sent.len() == session(completions).consumed.len() ==> echo(
            completions,
        ).sent == session(completions).consumed,
    decreases completions.len(),
{
    if completions.len() > 0 {
        echo_keeps_order(completions.drop_last());
    }
    let now = echo(completions);
    assert(now.sent + now.waiting =~= session(completions).consumed);
    if now.sent.len() == session(completions).consumed.len() {
        assert(now.sent =~= now.sent + now.waiting);
    }
}

} // verus!
