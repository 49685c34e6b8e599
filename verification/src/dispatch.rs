//! The dispatch pipeline, as a step machine.
//!
//! A queue message is first claimed ([`Dispatch::claim`]): a message whose
//! routing key is not of interest is handed back untouched, for another
//! consumer. A claimed message is acknowledged at the transport before
//! anything else happens to it; the shell reports the acknowledgment
//! ([`Dispatch::acked`]), and only then is the payload decoded and routed
//! ([`Dispatch::parse_and_route`]). The shell invokes the matched handler and
//! reports its outcome ([`Dispatch::handler_returned`]); a failing handler
//! either delegates to the command's error handler
//! ([`Dispatch::error_handler_returned`]) or owes the invoking user one
//! ephemeral response carrying the error's text, whose sending the shell
//! reports last ([`Dispatch::response_sent`]).
//!
//! A ghost history of the acts performed accompanies every machine, so that
//! the acknowledgment and response policies are stated once, as invariants.

use crate::event::{parse_payload, parsed_payload, InvocationEvent, Parsed, ParsedModel};
use crate::registry::{contains_name, Registry};
use crate::routing::{key_matches, routing_key_matches};
use vstd::prelude::*;

verus! {

/// One inbound queue message: its routing key and its payload bytes. The
/// transport's delivery handle stays with the shell, which resolves it when
/// the machine asks.
pub struct InboundMessage {
    pub routing_key: String,
    pub payload: Vec<u8>,
}

/// Where a dispatch stands: which act the shell owes the machine next.
#[derive(Clone, Copy, PartialEq, Eq, Structural, Debug)]
pub enum Phase {
    /// Claimed; the message must be acknowledged before anything else.
    NeedAck,
    /// Acknowledged; the payload is ready to be decoded and routed.
    NeedParse,
    /// Routed; the matched command's handler must be invoked.
    NeedInvoke,
    /// The handler failed; the command's error handler must be invoked.
    NeedErrorHandler,
    /// A generic error response must be sent to the invoking user.
    NeedRespond,
    /// Nothing more to do for this message.
    Done,
}

/// The non-fatal ways a single dispatch can end short of a handler call.
#[derive(Clone, Copy, PartialEq, Eq, Structural, Debug)]
pub enum DispatchFailure {
    /// The payload did not decode to an interaction event.
    MalformedPayload,
    /// Posting the error response failed.
    ResponseSend,
}

/// The generic error response: a text body, visible only to the invoking
/// user when `ephemeral` holds.
pub struct ErrorResponse {
    pub content: String,
    pub ephemeral: bool,
}

/// One act of a dispatch, as recorded in the machine's ghost history.
pub enum Act {
    Ack,
    Parse,
    Invoke,
    InvokeErrorHandler,
    Respond(Seq<char>, bool),
}

/// No response was sent in this history.
pub open spec fn no_respond(h: Seq<Act>) -> bool {
    forall|i: int| 0 <= i < h.len() ==> !(#[trigger] h[i] is Respond)
}

/// Exactly one response was sent in this history: an ephemeral one carrying
/// `content`.
pub open spec fn responds_exactly_once(h: Seq<Act>, content: Seq<char>) -> bool {
    &&& exists|i: int| 0 <= i < h.len() && #[trigger] h[i] == Act::Respond(content, true)
    &&& forall|i: int, j: int|
        0 <= i < h.len() && 0 <= j < h.len() && (#[trigger] h[i]) is Respond && (
        #[trigger] h[j]) is Respond ==> i == j
}

/// The acknowledgment came first, and never again.
pub open spec fn acked_first_and_once(h: Seq<Act>) -> bool {
    &&& h.len() >= 1
    &&& h[0] == Act::Ack
    &&& forall|i: int| 1 <= i < h.len() ==> (#[trigger] h[i]) != Act::Ack
}

/// The step machine for one claimed message.
pub struct Dispatch {
    /// The act the shell owes next.
    pub phase: Phase,
    /// The claimed message's payload, decoded after acknowledgment.
    pub payload: Vec<u8>,
    /// The decoded invocation, once routed.
    pub event: Option<InvocationEvent>,
    /// The position of the matched command in the registry, once routed.
    pub command: Option<usize>,
    /// Whether the matched command has an error handler.
    pub has_error_handler: bool,
    /// The failing handler's error text, while the error handler is owed.
    pub error_text: Option<String>,
    /// The generic error response, while one is owed.
    pub response: Option<ErrorResponse>,
    /// How the dispatch failed, if it did.
    pub failure: Option<DispatchFailure>,
    /// The acts performed so far.
    pub history: Ghost<Seq<Act>>,
    /// The text the generic error response owes the user, `None` when none
    /// is owed.
    pub owed: Ghost<Option<Seq<char>>>,
}

impl Dispatch {
    /// The machine's invariant, tying each phase to the acts performed:
    /// acknowledgment comes first and exactly once; at most one response is
    /// ever sent, and a finished dispatch sent exactly the response it owed.
    pub open spec fn wf(self) -> bool {
        match self.phase {
            Phase::NeedAck => {
                &&& self.history@ =~= Seq::<Act>::empty()
                &&& self.owed@ is None
                &&& self.response is None
                &&& self.failure is None
            },
            Phase::NeedParse => {
                &&& self.history@ =~= seq![Act::Ack]
                &&& self.owed@ is None
                &&& self.response is None
                &&& self.failure is None
            },
            Phase::NeedInvoke => {
                &&& self.history@ =~= seq![Act::Ack, Act::Parse]
                &&& self.owed@ is None
                &&& self.response is None
                &&& self.failure is None
                &&& self.event is Some
                &&& self.command is Some
            },
            Phase::NeedErrorHandler => {
                &&& self.history@ =~= seq![Act::Ack, Act::Parse, Act::Invoke]
                &&& self.owed@ is None
                &&& self.response is None
                &&& self.failure is None
                &&& self.error_text is Some
            },
            Phase::NeedRespond => {
                &&& acked_first_and_once(self.history@)
                &&& no_respond(self.history@)
                &&& self.failure is None
                &&& self.owed@ matches Some(t) && self.response matches Some(resp)
                    && resp.content@ == t && resp.ephemeral
            },
            Phase::Done => {
                &&& acked_first_and_once(self.history@)
                &&& match self.owed@ {
                    Some(t) => responds_exactly_once(self.history@, t),
                    None => no_respond(self.history@),
                }
            },
        }
    }

    /// The rejecting entry point. A message whose routing key is of interest
    /// is claimed, with nothing done to it yet; any other message is handed
    /// back untouched and unacknowledged, for another consumer.
    pub fn claim(msg: InboundMessage) -> (r: Result<Dispatch, InboundMessage>)
        ensures
            match r {
                Ok(d) => {
                    &&& key_matches(msg.routing_key@)
                    &&& d.wf()
                    &&& d.phase is NeedAck
                    &&& d.payload@ == msg.payload@
                },
                Err(m) => {
                    &&& !key_matches(msg.routing_key@)
                    &&& m == msg
                },
            },
    {
        if routing_key_matches(msg.routing_key.as_str()) {
            Ok(
                Dispatch {
                    phase: Phase::NeedAck,
                    payload: msg.payload,
                    event: None,
                    command: None,
                    has_error_handler: false,
                    error_text: None,
                    response: None,
                    failure: None,
                    history: Ghost(Seq::empty()),
                    owed: Ghost(None),
                },
            )
        } else {
            Err(msg)
        }
    }

    /// The shell reports that the message was acknowledged at the transport.
    /// Decoding becomes due only now: delivery is at-most-once by design.
    pub fn acked(&mut self)
        requires
            old(self).wf(),
            old(self).phase is NeedAck,
        ensures
            final(self).wf(),
            final(self).phase is NeedParse,
            final(self).history@ =~= old(self).history@.push(Act::Ack),
            final(self).payload@ == old(self).payload@,
    {
        self.phase = Phase::NeedParse;
        self.history = Ghost(self.history@.push(Act::Ack));
    }

    /// Decodes the acknowledged payload and routes it: a payload that does
    /// not decode ends the dispatch with a failure to log; an interaction of
    /// another kind, or an invocation naming no registered command, ends it
    /// silently; a routed invocation awaits its handler.
    pub fn parse_and_route<H, E>(&mut self, registry: &Registry<H, E>)
        requires
            old(self).wf(),
            old(self).phase is NeedParse,
        ensures
            final(self).wf(),
            final(self).history@ =~= old(self).history@.push(Act::Parse),
            match parsed_payload(old(self).payload@) {
                ParsedModel::Malformed => {
                    &&& final(self).phase is Done
                    &&& final(self).failure == Some(DispatchFailure::MalformedPayload)
                    &&& final(self).owed@ is None
                },
                ParsedModel::OtherKind => {
                    &&& final(self).phase is Done
                    &&& final(self).failure is None
                    &&& final(self).owed@ is None
                },
                ParsedModel::Command(m) => {
                    if contains_name(registry.commands@, m.name) {
                        &&& final(self).phase is NeedInvoke
                        &&& final(self).command matches Some(i)
                            && i < registry.commands@.len()
                            && registry.commands@[i as int].name@ == m.name
                            && final(self).has_error_handler == (
                            registry.commands@[i as int].error_handler is Some)
                        &&& final(self).event matches Some(e) && e@ == m
                    } else {
                        &&& final(self).phase is Done
                        &&& final(self).failure is None
                        &&& final(self).owed@ is None
                    }
                },
            },
    {
        self.history = Ghost(self.history@.push(Act::Parse));
        match parse_payload(&self.payload) {
            Parsed::Malformed => {
                self.failure = Some(DispatchFailure::MalformedPayload);
                self.phase = Phase::Done;
            },
            Parsed::OtherKind => {
                self.phase = Phase::Done;
            },
            Parsed::Command(event) => {
                match registry.lookup(&event.command_name) {
                    Some(i) => {
                        self.has_error_handler = registry.get(i).error_handler.is_some();
                        self.command = Some(i);
                        self.event = Some(event);
                        self.phase = Phase::NeedInvoke;
                    },
                    None => {
                        self.phase = Phase::Done;
                    },
                }
            },
        }
    }

    /// The shell reports the handler's outcome. Success ends the dispatch
    /// with nothing sent: handlers send their own success responses. A
    /// failure goes to the command's error handler when it has one, and
    /// otherwise owes the user one ephemeral response carrying the error's
    /// text.
    pub fn handler_returned(&mut self, outcome: Result<(), String>)
        requires
            old(self).wf(),
            old(self).phase is NeedInvoke,
        ensures
            final(self).wf(),
            final(self).history@ =~= old(self).history@.push(Act::Invoke),
            match outcome {
                Ok(()) => {
                    &&& final(self).phase is Done
                    &&& final(self).owed@ is None
                    &&& final(self).failure is None
                },
                Err(text) => {
                    if old(self).has_error_handler {
                        &&& final(self).phase is NeedErrorHandler
                        &&& final(self).error_text matches Some(t) && t@ == text@
                        &&& final(self).owed@ is None
                    } else {
                        &&& final(self).phase is NeedRespond
                        &&& final(self).owed@ == Some(text@)
                        &&& final(self).response matches Some(resp) && resp.content@ == text@
                            && resp.ephemeral
                    }
                },
            },
    {
        self.history = Ghost(self.history@.push(Act::Invoke));
        match outcome {
            Ok(()) => {
                self.phase = Phase::Done;
            },
            Err(text) => {
                if self.has_error_handler {
                    self.error_text = Some(text);
                    self.phase = Phase::NeedErrorHandler;
                } else {
                    self.owed = Ghost(Some(text@));
                    self.response = Some(ErrorResponse { content: text, ephemeral: true });
                    self.phase = Phase::NeedRespond;
                }
            },
        }
    }

    /// The shell reports the error handler's outcome. Success ends the
    /// dispatch with no generic response: the error handler is assumed to
    /// have responded itself. A failure owes the user one ephemeral response
    /// carrying the error handler's own error text, not the original.
    pub fn error_handler_returned(&mut self, outcome: Result<(), String>)
        requires
            old(self).wf(),
            old(self).phase is NeedErrorHandler,
        ensures
            final(self).wf(),
            final(self).history@ =~= old(self).history@.push(Act::InvokeErrorHandler),
            match outcome {
                Ok(()) => {
                    &&& final(self).phase is Done
                    &&& final(self).owed@ is None
                    &&& final(self).failure is None
                },
                Err(text) => {
                    &&& final(self).phase is NeedRespond
                    &&& final(self).owed@ == Some(text@)
                    &&& final(self).response matches Some(resp) && resp.content@ == text@
                        && resp.ephemeral
                },
            },
    {
        self.history = Ghost(self.history@.push(Act::InvokeErrorHandler));
        match outcome {
            Ok(()) => {
                self.phase = Phase::Done;
            },
            Err(text) => {
                self.owed = Ghost(Some(text@));
                self.response = Some(ErrorResponse { content: text, ephemeral: true });
                self.phase = Phase::NeedRespond;
            },
        }
    }

    /// The shell reports that it posted the owed response. The dispatch is
    /// over either way; a failed send is surfaced as this dispatch's final,
    /// unrecovered failure, and is never retried.
    pub fn response_sent(&mut self, delivered: bool)
        requires
            old(self).wf(),
            old(self).phase is NeedRespond,
        ensures
            final(self).wf(),
            final(self).phase is Done,
            final(self).owed@ == old(self).owed@,
            old(self).response matches Some(resp) ==> final(self).history@ =~= old(
                self,
            ).history@.push(Act::Respond(resp.content@, resp.ephemeral)),
            final(self).failure == if delivered {
                None::<DispatchFailure>
            } else {
                Some(DispatchFailure::ResponseSend)
            },
    {
        proof {
            let resp = self.response->Some_0;
            let h = self.history@.push(Act::Respond(resp.content@, resp.ephemeral));
            assert(h[h.len() - 1] == Act::Respond(resp.content@, resp.ephemeral));
            assert forall|i: int, j: int|
                0 <= i < h.len() && 0 <= j < h.len() && (#[trigger] h[i]) is Respond && (
                #[trigger] h[j]) is Respond implies i == j by {
                assert(i == h.len() - 1 && j == h.len() - 1);
            }
        }
        let ghost resp = self.response->Some_0;
        self.history = Ghost(self.history@.push(Act::Respond(resp.content@, resp.ephemeral)));
        if !delivered {
            self.failure = Some(DispatchFailure::ResponseSend);
        }
        self.phase = Phase::Done;
    }
}

} // verus!
