//! Interfaces for creating and managing the middleware machinery.
//!
//! [`RvCtx`] stands for the process-wide runtime handle; a
//! [`TransportBuilder`] collects the optional `service`, `network` and
//! `daemon` parameters and produces a [`Transport`]. The transport-level
//! operations that can be stated on plain values live here: creating
//! unique inbox subjects, the send precondition, subscribing, and the
//! request/serve decision steps the driving loops are built on.

use vstd::prelude::*;

use crate::asyncq::{AsyncQueue, AsyncReq, AsyncSub, AsyncSubModel};
use crate::errors::{ErrorKind, Status, TibrvError};
use crate::event::{Queue, Subscription, SubscriptionModel};
use crate::field::{clean_ascii, no_nul, opt_str_model};
use crate::message::{
    check_no_nul, has_wildcard, valid_send_subject, Msg, MsgModel,
};

verus! {

/// A struct representing the middleware's internal machinery, which must
/// be set up before transports or subscriptions are created.
#[derive(Clone, Debug)]
pub struct RvCtx {}

impl RvCtx {
    /// Initialize the runtime context.
    pub fn new() -> (r: Result<RvCtx, TibrvError>)
        ensures
            r is Ok,
    {
        Ok(RvCtx {})
    }
}

/// The configuration a transport carries: the three optional parameters,
/// and how many inbox subjects it has handed out.
#[verifier::ext_equal]
pub struct TransportModel {
    pub service: Option<Seq<char>>,
    pub network: Option<Seq<char>>,
    pub daemon: Option<Seq<char>>,
    pub inboxes: nat,
}

/// A builder for a transport.
#[derive(Debug)]
pub struct TransportBuilder {
    pub(crate) service: Option<String>,
    pub(crate) network: Option<String>,
    pub(crate) daemon: Option<String>,
    pub(crate) context: RvCtx,
}

/// The configuration collected so far by a builder.
#[verifier::ext_equal]
pub struct TransportBuilderModel {
    pub service: Option<Seq<char>>,
    pub network: Option<Seq<char>>,
    pub daemon: Option<Seq<char>>,
}

impl View for TransportBuilder {
    type V = TransportBuilderModel;

    closed spec fn view(&self) -> TransportBuilderModel {
        TransportBuilderModel {
            service: opt_str_model(self.service),
            network: opt_str_model(self.network),
            daemon: opt_str_model(self.daemon),
        }
    }
}

impl TransportBuilder {
    /// Constructs a new builder with the default parameters selected.
    ///
    /// The supplied context must live at least as long as any constructed
    /// transport.
    pub fn new(ctx: RvCtx) -> (r: TransportBuilder)
        ensures
            r@.service is None,
            r@.network is None,
            r@.daemon is None,
    {
        TransportBuilder { service: None, network: None, daemon: None, context: ctx }
    }

    /// Sets the `service` parameter.
    pub fn with_service(self, service: &str) -> (r: Result<TransportBuilder, TibrvError>)
        ensures
            if no_nul(service@) {
                r matches Ok(b) && b@ == (TransportBuilderModel {
                    service: Some(service@),
                    ..self@
                })
            } else {
                r matches Err(e) && e.kind == ErrorKind::StrContentError
            },
    {
        if !check_no_nul(service) {
            return Err(TibrvError { kind: ErrorKind::StrContentError });
        }
        Ok(TransportBuilder { service: Some(service.to_owned()), ..self })
    }

    /// Sets the `network` parameter.
    pub fn with_network(self, network: &str) -> (r: Result<TransportBuilder, TibrvError>)
        ensures
            if no_nul(network@) {
                r matches Ok(b) && b@ == (TransportBuilderModel {
                    network: Some(network@),
                    ..self@
                })
            } else {
                r matches Err(e) && e.kind == ErrorKind::StrContentError
            },
    {
        if !check_no_nul(network) {
            return Err(TibrvError { kind: ErrorKind::StrContentError });
        }
        Ok(TransportBuilder { network: Some(network.to_owned()), ..self })
    }

    /// Sets the `daemon` parameter.
    pub fn with_daemon(self, daemon: &str) -> (r: Result<TransportBuilder, TibrvError>)
        ensures
            if no_nul(daemon@) {
                r matches Ok(b) && b@ == (TransportBuilderModel {
                    daemon: Some(daemon@),
                    ..self@
                })
            } else {
                r matches Err(e) && e.kind == ErrorKind::StrContentError
            },
    {
        if !check_no_nul(daemon) {
            return Err(TibrvError { kind: ErrorKind::StrContentError });
        }
        Ok(TransportBuilder { daemon: Some(daemon.to_owned()), ..self })
    }

    /// Consumes the builder, creating a transport with the collected
    /// parameters.
    pub fn create(self) -> (r: Result<Transport, TibrvError>)
        ensures
            r matches Ok(t) && t@ == (TransportModel {
                service: self@.service,
                network: self@.network,
                daemon: self@.daemon,
                inboxes: 0,
            }),
    {
        Ok(Transport {
            service: self.service,
            network: self.network,
            daemon: self.daemon,
            context: self.context,
            inboxes: 0,
        })
    }
}

/// A struct representing a transport: a configured channel over which
/// messages are sent and received.
#[derive(Debug)]
pub struct Transport {
    pub(crate) service: Option<String>,
    pub(crate) network: Option<String>,
    pub(crate) daemon: Option<String>,
    pub(crate) context: RvCtx,
    pub(crate) inboxes: u64,
}

impl View for Transport {
    type V = TransportModel;

    closed spec fn view(&self) -> TransportModel {
        TransportModel {
            service: opt_str_model(self.service),
            network: opt_str_model(self.network),
            daemon: opt_str_model(self.daemon),
            inboxes: self.inboxes as nat,
        }
    }
}

/// The subject parameter a transport reports back: the configured value,
/// or the empty (default) value when none was set.
pub open spec fn reported_param(o: Option<Seq<char>>) -> Seq<char> {
    match o {
        Some(s) => s,
        None => Seq::empty(),
    }
}

/// The single digit characters, by value.
pub open spec fn digit_char(d: nat) -> char {
    if d == 0 {
        '0'
    } else if d == 1 {
        '1'
    } else if d == 2 {
        '2'
    } else if d == 3 {
        '3'
    } else if d == 4 {
        '4'
    } else if d == 5 {
        '5'
    } else if d == 6 {
        '6'
    } else if d == 7 {
        '7'
    } else if d == 8 {
        '8'
    } else {
        '9'
    }
}

/// The decimal digit string of a number, most significant digit first.
pub open spec fn dec_str(n: nat) -> Seq<char>
    decreases n,
{
    if n < 10 {
        seq![digit_char(n)]
    } else {
        dec_str(n / 10) + seq![digit_char(n % 10)]
    }
}

/// The unique inbox subject a transport hands out for its `n`-th inbox.
pub open spec fn inbox_subject(n: nat) -> Seq<char> {
    "_INBOX."@ + dec_str(n)
}

/// Every decimal digit string is clean ASCII without wildcards.
pub proof fn lemma_dec_str_clean(n: nat)
    ensures
        dec_str(n).len() > 0,
        clean_ascii(dec_str(n)),
        !has_wildcard(dec_str(n)),
    decreases n,
{
    if n < 10 {
        assert(forall|i: int|
            0 <= i < dec_str(n).len() ==> dec_str(n)[i] == digit_char(n));
    } else {
        lemma_dec_str_clean(n / 10);
        let s = dec_str(n);
        let p = dec_str(n / 10);
        assert(forall|i: int| 0 <= i < p.len() ==> s[i] == p[i]);
        assert(s[s.len() - 1] == digit_char(n % 10));
        assert forall|i: int| 0 <= i < s.len() implies (s[i] > '\0' && s[i] <= '\u{7f}'
            && s[i] != '*' && s[i] != '>') by {
            if i < p.len() {
                assert(clean_ascii(p));
                assert(p[i] > '\0' && p[i] <= '\u{7f}');
                assert(!has_wildcard(p));
                assert(!(p[i] == '*' || p[i] == '>'));
            }
        }
        assert(!has_wildcard(s)) by {
            if has_wildcard(s) {
                let i = choose|i: int| 0 <= i < s.len() && (s[i] == '*' || s[i] == '>');
                assert(s[i] > '\0' && s[i] <= '\u{7f}' && s[i] != '*' && s[i] != '>');
            }
        }
    }
}

/// Every inbox subject is a valid send subject.
pub proof fn lemma_inbox_subject_valid(n: nat)
    ensures
        valid_send_subject(inbox_subject(n)),
{
    reveal_strlit("_INBOX.");
    lemma_dec_str_clean(n);
    let h = "_INBOX."@;
    let s = inbox_subject(n);
    assert(h.len() == 7);
    assert(h[0] == '_' && h[1] == 'I' && h[2] == 'N' && h[3] == 'B' && h[4] == 'O' && h[5] == 'X'
        && h[6] == '.');
    assert forall|i: int| 0 <= i < s.len() implies (s[i] > '\0' && s[i] <= '\u{7f}'
        && s[i] != '*' && s[i] != '>') by {
        if i < 7 {
            assert(s[i] == h[i]);
        } else {
            assert(s[i] == dec_str(n)[i - 7]);
            assert(clean_ascii(dec_str(n)));
            assert(dec_str(n)[i - 7] > '\0' && dec_str(n)[i - 7] <= '\u{7f}');
            assert(!has_wildcard(dec_str(n)));
            assert(!(dec_str(n)[i - 7] == '*' || dec_str(n)[i - 7] == '>'));
        }
    }
    assert(!has_wildcard(s)) by {
        if has_wildcard(s) {
            let i = choose|i: int| 0 <= i < s.len() && (s[i] == '*' || s[i] == '>');
            assert(s[i] > '\0' && s[i] <= '\u{7f}' && s[i] != '*' && s[i] != '>');
        }
    }
}

/// Append the decimal digits of `n` to a string.
fn append_dec(n: u64, out: &mut String)
    ensures
        final(out)@ == old(out)@ + dec_str(n as nat),
    decreases n,
{
    if n >= 10 {
        append_dec(n / 10, out);
    }
    let d = n % 10;
    let ds: &str = match d {
        0 => "0",
        1 => "1",
        2 => "2",
        3 => "3",
        4 => "4",
        5 => "5",
        6 => "6",
        7 => "7",
        8 => "8",
        _ => "9",
    };
    proof {
        reveal_strlit("0");
        reveal_strlit("1");
        reveal_strlit("2");
        reveal_strlit("3");
        reveal_strlit("4");
        reveal_strlit("5");
        reveal_strlit("6");
        reveal_strlit("7");
        reveal_strlit("8");
        reveal_strlit("9");
        assert(ds@ =~= seq![digit_char((n % 10) as nat)]);
        if n >= 10 {
            assert(dec_str(n as nat) == dec_str((n / 10) as nat) + seq![
                digit_char((n % 10) as nat),
            ]);
        } else {
            assert(dec_str(n as nat) =~= seq![digit_char(n as nat)]);
        }
    }
    out.append(ds);
    proof {
        assert(final(out)@ =~= old(out)@ + dec_str(n as nat));
    }
}

impl Transport {
    /// Extract the daemon parameter from the transport.
    pub fn daemon(&self) -> (r: Result<String, TibrvError>)
        ensures
            r matches Ok(s) && s@ == reported_param(self@.daemon),
    {
        match &self.daemon {
            Some(s) => Ok(s.clone()),
            None => Ok(String::new()),
        }
    }

    /// Extract the network parameter from the transport.
    pub fn network(&self) -> (r: Result<String, TibrvError>)
        ensures
            r matches Ok(s) && s@ == reported_param(self@.network),
    {
        match &self.network {
            Some(s) => Ok(s.clone()),
            None => Ok(String::new()),
        }
    }

    /// Extract the service parameter from the transport.
    pub fn service(&self) -> (r: Result<String, TibrvError>)
        ensures
            r matches Ok(s) && s@ == reported_param(self@.service),
    {
        match &self.service {
            Some(s) => Ok(s.clone()),
            None => Ok(String::new()),
        }
    }

    /// Creates a unique inbox subject name.
    ///
    /// The created subject is unique for this transport: each call hands
    /// out the next one.
    pub fn create_inbox(&mut self) -> (r: Result<String, TibrvError>)
        requires
            old(self)@.inboxes < u64::MAX,
        ensures
            r matches Ok(s) && s@ == inbox_subject(old(self)@.inboxes),
            final(self)@ == (TransportModel { inboxes: old(self)@.inboxes + 1, ..old(self)@ }),
    {
        let mut s = String::from_str("_INBOX.");
        append_dec(self.inboxes, &mut s);
        self.inboxes = self.inboxes + 1;
        Ok(s)
    }

    /// Send a message through this transport.
    ///
    /// Sending requires a send subject; the native send call itself is
    /// assumed non-blocking, so nothing else can be observed here.
    pub fn send(&self, msg: &mut Msg) -> (r: Result<(), TibrvError>)
        ensures
            final(msg)@ == old(msg)@,
            if old(msg)@.send_subject is Some {
                r is Ok
            } else {
                r matches Err(e) && e.kind == ErrorKind::UnknownError(Status::InvalidSubject)
            },
    {
        let subject = match msg.get_send_subject() {
            Ok(s) => s,
            Err(e) => {
                return Err(e);
            },
        };
        match subject {
            Some(_) => Ok(()),
            None => Err(TibrvError { kind: ErrorKind::UnknownError(Status::InvalidSubject) }),
        }
    }

    /// Subscribe to a message subject on this transport.
    ///
    /// Sets up a dispatch queue and binds it into a subscription; the
    /// subject must be representable as a native string, wildcards are
    /// accepted.
    pub fn subscribe(&self, subject: &str) -> (r: Result<Subscription, TibrvError>)
        ensures
            if clean_ascii(subject@) {
                r matches Ok(s) && s@ == (SubscriptionModel {
                    subject: subject@,
                    buffer: Seq::empty(),
                    closed: false,
                })
            } else {
                r matches Err(e) && e.kind == ErrorKind::StrContentError
            },
    {
        let queue = match Queue::new(self.context.clone()) {
            Ok(q) => q,
            Err(e) => {
                return Err(e);
            },
        };
        queue.subscribe(self, subject)
    }

    /// Asynchronously subscribe to a message subject.
    ///
    /// Sets up the queue and buffer as in a synchronous subscription and
    /// returns a pollable stream.
    pub fn async_sub(&self, subject: &str) -> (r: Result<AsyncSub, TibrvError>)
        ensures
            if clean_ascii(subject@) {
                r matches Ok(s) && s@ == (AsyncSubModel {
                    sub: SubscriptionModel {
                        subject: subject@,
                        buffer: Seq::empty(),
                        closed: false,
                    },
                    ready: false,
                })
            } else {
                r matches Err(e) && e.kind == ErrorKind::StrContentError
            },
    {
        let queue = match AsyncQueue::new(self.context.clone()) {
            Ok(q) => q,
            Err(e) => {
                return Err(e);
            },
        };
        queue.subscribe(self, subject)
    }

    /// Asynchronously send a request on the given subject.
    ///
    /// Stamps the message with a fresh inbox as its reply subject,
    /// subscribes to that inbox, sends the message, and returns the
    /// future of the first message received on the inbox.
    pub fn async_req(&mut self, msg: &mut Msg) -> (r: Result<AsyncReq, TibrvError>)
        requires
            old(self)@.inboxes < u64::MAX,
        ensures
            final(self)@ == (TransportModel { inboxes: old(self)@.inboxes + 1, ..old(self)@ }),
            final(msg)@.fields == old(msg)@.fields,
            final(msg)@.send_subject == old(msg)@.send_subject,
            if old(msg)@.send_subject is Some {
                &&& r matches Ok(req) && req@ == (AsyncSubModel {
                    sub: SubscriptionModel {
                        subject: inbox_subject(old(self)@.inboxes),
                        buffer: Seq::empty(),
                        closed: false,
                    },
                    ready: false,
                })
                &&& final(msg)@.reply_subject == Some(inbox_subject(old(self)@.inboxes))
            } else {
                &&& r matches Err(e) && e.kind == ErrorKind::UnknownError(
                    Status::InvalidSubject,
                )
                &&& final(msg)@.reply_subject == Some(inbox_subject(old(self)@.inboxes))
            },
    {
        let inbox = match self.create_inbox() {
            Ok(s) => s,
            Err(e) => {
                return Err(e);
            },
        };
        proof {
            lemma_inbox_subject_valid(old(self)@.inboxes);
        }
        let sub = match self.async_sub(inbox.as_str()) {
            Ok(s) => s,
            Err(e) => {
                proof {
                    assert(false);
                }
                return Err(e);
            },
        };
        match msg.set_reply_subject(inbox.as_str()) {
            Ok(()) => (),
            Err(e) => {
                proof {
                    assert(false);
                }
                return Err(e);
            },
        };
        match self.send(msg) {
            Ok(()) => (),
            Err(e) => {
                return Err(e);
            },
        };
        Ok(AsyncReq::new(sub))
    }

    /// One round of a serve loop.
    ///
    /// A request carrying a reply subject is answered: the handler's
    /// reply is stamped with that subject and sent through this
    /// transport. A message without a reply subject is dropped as a
    /// fire-and-forget notification.
    pub fn serve_step<F: Fn(Msg) -> Result<Msg, TibrvError>>(&self, f: &F, incoming: Msg) -> (r:
        Result<Option<Msg>, TibrvError>)
        requires
            incoming.wf(),
            call_requires(*f, (incoming,)),
        ensures
            incoming@.reply_subject is None ==> (r matches Ok(o) && o is None),
            incoming@.reply_subject matches Some(subj) ==> (match r {
                Ok(o) => o matches Some(m) && (exists|g: Msg|
                    #[trigger] call_ensures(*f, (incoming,), Ok(g)) && m@ == (MsgModel {
                        send_subject: Some(subj),
                        ..g@
                    })),
                Err(e) => call_ensures(*f, (incoming,), Err::<Msg, TibrvError>(e)),
            }),
    {
        let reply_subj = match incoming.get_reply_subject() {
            Ok(o) => o,
            Err(e) => {
                proof {
                    assert(false);
                }
                return Err(e);
            },
        };
        match reply_subj {
            None => Ok(None),
            Some(subj) => {
                let mut reply = match f(incoming) {
                    Ok(m) => m,
                    Err(e) => {
                        return Err(e);
                    },
                };
                let ghost handled = reply;
                match reply.set_send_subject(subj.as_str()) {
                    Ok(()) => {
                        proof {
                            assert(call_ensures(*f, (incoming,), Ok(handled)) && reply@ == (
                            MsgModel {
                                send_subject: Some(subj@),
                                ..handled@
                            }));
                        }
                        Ok(Some(reply))
                    },
                    Err(e) => {
                        proof {
                            assert(false);
                        }
                        Err(e)
                    },
                }
            },
        }
    }
}

} // verus!
