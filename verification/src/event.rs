//! Interfaces for dealing with inbound events.
//!
//! A [`Queue`] stands for a native dispatch queue; subscribing it to a
//! subject on a transport yields a [`Subscription`], which couples the
//! native listener with a FIFO hand-off buffer. The native callback side
//! deposits messages with [`Subscription::deliver`]; the consumer side
//! takes them out with [`Subscription::next`] or
//! [`Subscription::try_next`], in delivery order.

use vstd::prelude::*;

use crate::context::{RvCtx, Transport};
use crate::errors::{ErrorKind, TibrvError};
use crate::field::clean_ascii;
use crate::message::{check_clean_ascii, lemma_msgs_model, lemma_msgs_model_push, msgs_model, Msg,
    MsgModel};

verus! {

/// The reason a non-blocking receive yielded no message: the buffer is
/// merely empty, or the producing side has been torn down.
#[derive(Clone, Copy, Debug, PartialEq, Eq, Structural)]
pub enum TryNextError {
    Empty,
    Disconnected,
}

/// A dispatch queue.
///
/// Events are handed to their subscription's buffer as they are
/// delivered, so no event ever waits in the queue object itself.
#[derive(Debug)]
pub struct Queue {
    pub(crate) context: RvCtx,
}

impl Queue {
    /// Construct a new event queue.
    ///
    /// The supplied context must live at least as long as any created
    /// queue.
    pub fn new(ctx: RvCtx) -> (r: Result<Queue, TibrvError>)
        ensures
            r is Ok,
    {
        Ok(Queue { context: ctx })
    }

    /// The number of events waiting in the queue: always zero, since
    /// delivered events land directly in their subscription's buffer.
    pub fn count(&self) -> (r: Result<u32, TibrvError>)
        ensures
            r matches Ok(n) && n == 0,
    {
        Ok(0)
    }

    /// Subscribe to a message subject.
    ///
    /// Consumes the queue and binds it, the transport and the subject
    /// into a subscription with an empty buffer. The subject must be
    /// representable as a native string; wildcards are accepted here.
    pub fn subscribe(self, tp: &Transport, subject: &str) -> (r: Result<
        Subscription,
        TibrvError,
    >)
        ensures
            if clean_ascii(subject@) {
                r matches Ok(s) && s@ == (SubscriptionModel {
                    subject: subject@,
                    buffer: Seq::empty(),
                    closed: false,
                })
            } else {
                r matches Err(e) && e.kind == ErrorKind::StrContentError
            },
    {
        let _ = tp;
        if !check_clean_ascii(subject) {
            return Err(TibrvError { kind: ErrorKind::StrContentError });
        }
        let s = Subscription {
            queue: self,
            subject: subject.to_owned(),
            buffer: Vec::new(),
            closed: false,
        };
        proof {
            lemma_msgs_model(s.buffer@);
            assert(msgs_model(s.buffer@) =~= Seq::empty());
        }
        Ok(s)
    }
}

/// Represents a subscription to a subject: the queue, the subject, and
/// the hand-off buffer filled by the native callback.
#[derive(Debug)]
pub struct Subscription {
    pub(crate) queue: Queue,
    pub(crate) subject: String,
    pub(crate) buffer: Vec<Msg>,
    pub(crate) closed: bool,
}

/// The mathematical shape of a subscription: its subject, the messages
/// delivered but not yet taken, in delivery order, and whether the
/// producing side has been torn down.
#[verifier::ext_equal]
pub struct SubscriptionModel {
    pub subject: Seq<char>,
    pub buffer: Seq<MsgModel>,
    pub closed: bool,
}

impl View for Subscription {
    type V = SubscriptionModel;

    closed spec fn view(&self) -> SubscriptionModel {
        SubscriptionModel {
            subject: self.subject@,
            buffer: msgs_model(self.buffer@),
            closed: self.closed,
        }
    }
}

impl Subscription {
    /// The subject this subscription listens on.
    pub fn subject(&self) -> (r: &str)
        ensures
            r@ == self@.subject,
    {
        self.subject.as_str()
    }

    /// Deposit a delivered message at the back of the buffer.
    ///
    /// This is the producer side of the hand-off: in a running system it
    /// is called from the native callback, on the dispatch thread.
    pub fn deliver(&mut self, msg: Msg) -> (r: ())
        requires
            !old(self)@.closed,
        ensures
            final(self)@ == (SubscriptionModel {
                buffer: old(self)@.buffer.push(msg@),
                ..old(self)@
            }),
    {
        proof {
            lemma_msgs_model_push(self.buffer@, msg);
        }
        self.buffer.push(msg);
    }

    /// Tear down the producing side: no further message will be
    /// delivered, but buffered messages can still be taken.
    pub fn close(&mut self) -> (r: ())
        ensures
            final(self)@ == (SubscriptionModel { closed: true, ..old(self)@ }),
    {
        self.closed = true;
    }

    /// Take the next message available on this subscription.
    ///
    /// The first buffered message is returned immediately. When the
    /// buffer is empty the call would have to block on the native
    /// dispatcher until a delivery, which only a driving loop can do, so
    /// an empty, still-open subscription is left out here; an empty,
    /// closed one fails with `QueueError`.
    pub fn next(&mut self) -> (r: Result<Msg, TibrvError>)
        requires
            old(self)@.buffer.len() > 0 || old(self)@.closed,
        ensures
            if old(self)@.buffer.len() > 0 {
                &&& r matches Ok(m) && m@ == old(self)@.buffer[0]
                &&& final(self)@ == (SubscriptionModel {
                    buffer: old(self)@.buffer.drop_first(),
                    ..old(self)@
                })
            } else {
                &&& r matches Err(e) && e.kind == ErrorKind::QueueError
                &&& final(self)@ == old(self)@
            },
    {
        proof {
            lemma_msgs_model(self.buffer@);
        }
        if self.buffer.len() > 0 {
            let m = self.buffer.remove(0);
            proof {
                lemma_msgs_model(self.buffer@);
                lemma_msgs_model(old(self).buffer@);
                assert(msgs_model(self.buffer@) =~= msgs_model(old(self).buffer@).drop_first());
            }
            Ok(m)
        } else {
            Err(TibrvError { kind: ErrorKind::QueueError })
        }
    }

    /// Take the next message without blocking.
    ///
    /// An empty buffer reports `Empty` while the producer is still
    /// registered, and `Disconnected` once it has been torn down.
    pub fn try_next(&mut self) -> (r: Result<Msg, TryNextError>)
        ensures
            if old(self)@.buffer.len() > 0 {
                &&& r matches Ok(m) && m@ == old(self)@.buffer[0]
                &&& final(self)@ == (SubscriptionModel {
                    buffer: old(self)@.buffer.drop_first(),
                    ..old(self)@
                })
            } else {
                &&& final(self)@ == old(self)@
                &&& r matches Err(e) && e == (if old(self)@.closed {
                    TryNextError::Disconnected
                } else {
                    TryNextError::Empty
                })
            },
    {
        proof {
            lemma_msgs_model(self.buffer@);
        }
        if self.buffer.len() > 0 {
            let m = self.buffer.remove(0);
            proof {
                lemma_msgs_model(self.buffer@);
                lemma_msgs_model(old(self).buffer@);
                assert(msgs_model(self.buffer@) =~= msgs_model(old(self).buffer@).drop_first());
            }
            Ok(m)
        } else if self.closed {
            Err(TryNextError::Disconnected)
        } else {
            Err(TryNextError::Empty)
        }
    }
}

/// Subscription ordering: three messages delivered into an empty
/// subscription in order stand in its buffer in that order, so three
/// sequential receives return them first-in, first-out.
pub proof fn lemma_subscription_fifo(s: SubscriptionModel, m1: MsgModel, m2: MsgModel, m3: MsgModel)
    requires
        s.buffer.len() == 0,
    ensures
        ({
            let b = s.buffer.push(m1).push(m2).push(m3);
            &&& b[0] == m1
            &&& b.drop_first()[0] == m2
            &&& b.drop_first().drop_first()[0] == m3
            &&& b.drop_first().drop_first().drop_first().len() == 0
        }),
{
    let b = s.buffer.push(m1).push(m2).push(m3);
    assert(b[0] == m1);
    assert(b.drop_first()[0] == b[1]);
    assert(b.drop_first().drop_first()[0] == b[2]);
    assert(b.drop_first().drop_first().drop_first().len() == 0);
}

} // verus!
