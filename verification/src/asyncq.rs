//! Asynchronous interfaces: bridging a subscription to a reactor.
//!
//! The native dispatcher offers only "block forever" or "poll once", so
//! readiness is synthesized: a per-queue dispatch hook sets a shared flag
//! whenever any callback on the queue fires, and [`AsyncSub::poll`]
//! checks the subscription's own buffer first, then the flag. The flag
//! side is driven by [`AsyncSub::notify`] (the hook's fan-out edge);
//! message deposits arrive through [`AsyncSub::deliver`] (the callback
//! edge). Polling never blocks, never loses a message, and never reorders
//! one.

use vstd::prelude::*;

use crate::context::Transport;
use crate::errors::{ErrorKind, TibrvError};
use crate::event::{Queue, Subscription, SubscriptionModel, TryNextError};
use crate::field::clean_ascii;
use crate::message::{Msg, MsgModel};

verus! {

/// The outcome of one non-blocking poll: a value, or not ready yet.
#[derive(Debug)]
pub enum Async<T> {
    Ready(T),
    NotReady,
}

/// A queue prepared for asynchronous use: it additionally carries the
/// per-queue dispatch hook that drives the readiness flag.
#[derive(Debug)]
pub struct AsyncQueue {
    pub(crate) queue: Queue,
    pub(crate) hooked: bool,
}

impl AsyncQueue {
    /// Whether the per-queue dispatch hook has been installed.
    pub closed spec fn spec_has_hook(&self) -> bool {
        self.hooked
    }

    /// Construct a new asynchronous event queue; no hook is installed
    /// yet.
    pub fn new(ctx: crate::context::RvCtx) -> (r: Result<AsyncQueue, TibrvError>)
        ensures
            r matches Ok(q) && !q.spec_has_hook(),
    {
        let queue = match Queue::new(ctx) {
            Ok(q) => q,
            Err(e) => {
                return Err(e);
            },
        };
        Ok(AsyncQueue { queue, hooked: false })
    }

    /// Whether the per-queue dispatch hook has been installed.
    pub fn has_hook(&self) -> (r: bool)
        ensures
            r == self.spec_has_hook(),
    {
        self.hooked
    }

    /// Asynchronously subscribe to a message subject.
    ///
    /// Sets up the subscription as in the synchronous case, installs the
    /// dispatch hook, and returns a pollable stream whose readiness flag
    /// starts cleared.
    pub fn subscribe(self, tp: &Transport, subject: &str) -> (r: Result<AsyncSub, TibrvError>)
        ensures
            if clean_ascii(subject@) {
                r matches Ok(s) && s@ == (AsyncSubModel {
                    sub: SubscriptionModel {
                        subject: subject@,
                        buffer: Seq::empty(),
                        closed: false,
                    },
                    ready: false,
                })
            } else {
                r matches Err(e) && e.kind == ErrorKind::StrContentError
            },
    {
        let sub = match self.queue.subscribe(tp, subject) {
            Ok(s) => s,
            Err(e) => {
                return Err(e);
            },
        };
        Ok(AsyncSub { sub, ready: false })
    }
}

/// A stream of inbound messages on one subject, pollable from a reactor.
#[derive(Debug)]
pub struct AsyncSub {
    pub(crate) sub: Subscription,
    pub(crate) ready: bool,
}

/// The mathematical shape of a stream: the underlying subscription and
/// the readiness flag.
#[verifier::ext_equal]
pub struct AsyncSubModel {
    pub sub: SubscriptionModel,
    pub ready: bool,
}

impl View for AsyncSub {
    type V = AsyncSubModel;

    closed spec fn view(&self) -> AsyncSubModel {
        AsyncSubModel { sub: self.sub@, ready: self.ready }
    }
}

/// What one poll of a stream yields, as a function of the stream state:
/// the first buffered message if there is one; otherwise not-ready while
/// the flag is clear or the producer lives; a terminal failure once the
/// buffer is dry, the flag set, and the producer gone.
#[verifier::ext_equal]
pub enum PollOutcome {
    Ready(MsgModel),
    NotReady,
    Closed,
}

/// The outcome one poll yields for a given stream state.
pub open spec fn spec_poll_outcome(s: AsyncSubModel) -> PollOutcome {
    if s.sub.buffer.len() > 0 {
        PollOutcome::Ready(s.sub.buffer[0])
    } else if !s.ready {
        PollOutcome::NotReady
    } else if s.sub.closed {
        PollOutcome::Closed
    } else {
        PollOutcome::NotReady
    }
}

/// The stream state one poll leaves behind.
pub open spec fn spec_poll_state(s: AsyncSubModel) -> AsyncSubModel {
    if s.sub.buffer.len() > 0 {
        AsyncSubModel {
            sub: SubscriptionModel { buffer: s.sub.buffer.drop_first(), ..s.sub },
            ..s
        }
    } else if !s.ready {
        s
    } else if s.sub.closed {
        s
    } else {
        AsyncSubModel { ready: false, ..s }
    }
}

impl AsyncSub {
    /// Deposit a delivered message at the back of the stream's buffer
    /// (the native callback edge).
    pub fn deliver(&mut self, msg: Msg) -> (r: ())
        requires
            !old(self)@.sub.closed,
        ensures
            final(self)@ == (AsyncSubModel {
                sub: SubscriptionModel {
                    buffer: old(self)@.sub.buffer.push(msg@),
                    ..old(self)@.sub
                },
                ..old(self)@
            }),
    {
        self.sub.deliver(msg);
    }

    /// Mark the stream ready (the per-queue dispatch hook edge). The
    /// hook fires for any listener on the queue, so readiness does not
    /// say which subject has data.
    pub fn notify(&mut self) -> (r: ())
        ensures
            final(self)@ == (AsyncSubModel { ready: true, ..old(self)@ }),
    {
        self.ready = true;
    }

    /// Tear down the producing side of the stream.
    pub fn close(&mut self) -> (r: ())
        ensures
            final(self)@ == (AsyncSubModel {
                sub: SubscriptionModel { closed: true, ..old(self)@.sub },
                ..old(self)@
            }),
    {
        self.sub.close();
    }

    /// One non-blocking poll of the stream.
    ///
    /// A buffered message is returned at once, even when the readiness
    /// flag is clear: a message may have been pumped in by another
    /// subject's callback on the shared queue. Otherwise, a clear flag
    /// reports not-ready; a set flag over an empty buffer is cleared and
    /// reports not-ready; a set flag over a torn-down producer yields the
    /// terminal `QueueError`.
    pub fn next(&mut self) -> (r: Result<Async<Option<Msg>>, TibrvError>)
        ensures
            final(self)@ == spec_poll_state(old(self)@),
            match spec_poll_outcome(old(self)@) {
                PollOutcome::Ready(m) => r matches Ok(a) && (a matches Async::Ready(o) && (
                o matches Some(v) && v@ == m)),
                PollOutcome::NotReady => r matches Ok(a) && a is NotReady,
                PollOutcome::Closed => r matches Err(e) && e.kind == ErrorKind::QueueError,
            },
    {
        match self.sub.try_next() {
            Ok(msg) => {
                return Ok(Async::Ready(Some(msg)));
            },
            Err(_) => (),
        }
        if !self.ready {
            return Ok(Async::NotReady);
        }
        match self.sub.try_next() {
            Err(e) => {
                if e == TryNextError::Empty {
                    self.ready = false;
                    return Ok(Async::NotReady);
                }
                Err(TibrvError { kind: ErrorKind::QueueError })
            },
            Ok(msg) => Ok(Async::Ready(Some(msg))),
        }
    }

    /// Poll the stream, as a reactor does.
    pub fn poll(&mut self) -> (r: Result<Async<Option<Msg>>, TibrvError>)
        ensures
            final(self)@ == spec_poll_state(old(self)@),
            match spec_poll_outcome(old(self)@) {
                PollOutcome::Ready(m) => r matches Ok(a) && (a matches Async::Ready(o) && (
                o matches Some(v) && v@ == m)),
                PollOutcome::NotReady => r matches Ok(a) && a is NotReady,
                PollOutcome::Closed => r matches Err(e) && e.kind == ErrorKind::QueueError,
            },
    {
        self.next()
    }
}

/// A future representing an incomplete request: it resolves with the
/// first message received on the request's reply inbox.
#[derive(Debug)]
pub struct AsyncReq {
    pub(crate) sub: AsyncSub,
}

impl View for AsyncReq {
    type V = AsyncSubModel;

    closed spec fn view(&self) -> AsyncSubModel {
        self.sub@
    }
}

impl AsyncReq {
    /// Wrap an inbox stream into a request future.
    pub fn new(sub: AsyncSub) -> (r: AsyncReq)
        ensures
            r@ == sub@,
    {
        AsyncReq { sub }
    }

    /// Deposit the reply (the native callback edge for the inbox).
    pub fn deliver(&mut self, msg: Msg) -> (r: ())
        requires
            !old(self)@.sub.closed,
        ensures
            final(self)@ == (AsyncSubModel {
                sub: SubscriptionModel {
                    buffer: old(self)@.sub.buffer.push(msg@),
                    ..old(self)@.sub
                },
                ..old(self)@
            }),
    {
        self.sub.deliver(msg);
    }

    /// One poll of the request future: the first inbox message resolves
    /// it.
    pub fn poll(&mut self) -> (r: Result<Async<Msg>, TibrvError>)
        ensures
            final(self)@ == spec_poll_state(old(self)@),
            match spec_poll_outcome(old(self)@) {
                PollOutcome::Ready(m) => r matches Ok(a) && (a matches Async::Ready(v) && v@
                    == m),
                PollOutcome::NotReady => r matches Ok(a) && a is NotReady,
                PollOutcome::Closed => r matches Err(e) && e.kind == ErrorKind::QueueError,
            },
    {
        match self.sub.poll() {
            Ok(Async::Ready(Some(v))) => Ok(Async::Ready(v)),
            Ok(Async::Ready(None)) => Err(TibrvError { kind: ErrorKind::QueueError }),
            Ok(Async::NotReady) => Ok(Async::NotReady),
            Err(e) => Err(e),
        }
    }
}

/// Async readiness: a fresh stream, polled before any message has been
/// delivered, reports not-ready and is left unchanged.
pub proof fn lemma_fresh_stream_not_ready(s: AsyncSubModel)
    requires
        s.sub.buffer.len() == 0,
        !s.ready,
    ensures
        spec_poll_outcome(s) is NotReady,
        spec_poll_state(s) == s,
{
}

/// Async readiness: once a message is delivered into an empty stream,
/// the next poll returns exactly that message.
pub proof fn lemma_delivery_wakes_stream(s: AsyncSubModel, m: MsgModel)
    requires
        s.sub.buffer.len() == 0,
    ensures
        ({
            let delivered = AsyncSubModel {
                sub: SubscriptionModel { buffer: s.sub.buffer.push(m), ..s.sub },
                ..s
            };
            &&& spec_poll_outcome(delivered) == PollOutcome::Ready(m)
            &&& spec_poll_state(delivered) == AsyncSubModel { sub: s.sub, ..s }
        }),
{
    let delivered = AsyncSubModel {
        sub: SubscriptionModel { buffer: s.sub.buffer.push(m), ..s.sub },
        ..s
    };
    assert(delivered.sub.buffer[0] == m);
    assert(delivered.sub.buffer.drop_first() =~= s.sub.buffer);
    assert(spec_poll_state(delivered) =~= (AsyncSubModel { sub: s.sub, ..s }));
}

} // verus!
