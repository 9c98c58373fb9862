//! The whole of one exchange with the speech service about one audio
//! submission, as a machine that says which action comes next: connect, send
//! the opening events in order, receive, pass texts on to the client, finish.
//! The caller performs each action and reports how it went.
use vstd::prelude::*;
use crate::error::RelayError;
use crate::messages::{handshake, handshake_texts, views, event_type_of};
use crate::upstream::{UpstreamMessage, UpstreamSession, chunks_after, outputs_for, is_done};

verus! {

/// How far an exchange has come.
#[derive(Debug, Clone, Copy, PartialEq, Eq, Structural)]
pub enum Phase {
    Connecting,
    Opening,
    Receiving,
    Forwarding,
    Over,
}

/// How the last action went, or what it brought.
#[derive(Debug)]
pub enum ExchangeEvent {
    Connected,
    ConnectFailed(String),
    Sent,
    SendFailed(String),
    Received(UpstreamMessage),
    /// The service's stream ended without a close message.
    Ended,
    Forwarded,
    ForwardFailed(String),
}

/// What the caller is to do next.
#[derive(Debug)]
pub enum ExchangeAction {
    /// Open the connection to the service.
    Connect,
    /// Send this event to the service.
    SendUpstream(String),
    /// Wait for the next message from the service.
    Receive,
    /// Send this text to the client.
    SendClient(String),
    /// The exchange is over, with this outcome; the connection is dropped.
    Finish(Result<(), RelayError>),
}

/// One exchange.
#[derive(Debug)]
pub struct Exchange {
    phase: Phase,
    opening: Vec<String>,
    sent: usize,
    session: UpstreamSession,
    pending: Vec<String>,
    forwarded: usize,
    closing: bool,
}

impl Exchange {
    pub closed spec fn phase(&self) -> Phase {
        self.phase
    }

    /// The opening events, in the order they are to be sent.
    pub closed spec fn opening(&self) -> Seq<Seq<char>> {
        views(self.opening@)
    }

    /// How many opening events have been sent.
    pub closed spec fn sent(&self) -> nat {
        self.sent as nat
    }

    /// The transcript fragments gathered so far.
    pub closed spec fn chunks(&self) -> Seq<Seq<char>> {
        self.session.chunks()
    }

    /// The texts that the last message from the service calls to pass on.
    pub closed spec fn pending(&self) -> Seq<Seq<char>> {
        views(self.pending@)
    }

    /// How many of the pending texts have been passed on.
    pub closed spec fn forwarded(&self) -> nat {
        self.forwarded as nat
    }

    /// Whether the exchange ends once the pending texts have been passed on.
    pub closed spec fn closing(&self) -> bool {
        self.closing
    }

    pub closed spec fn wf(&self) -> bool {
        &&& self.opening@.len() == 4
        &&& self.sent <= 4
        &&& (self.phase == Phase::Opening ==> self.sent < 4)
        &&& self.forwarded <= self.pending@.len()
        &&& (self.phase == Phase::Forwarding ==> self.forwarded < self.pending@.len())
    }

    /// An exchange about `audio` that has yet to connect, and the action it
    /// starts with.
    pub fn new(audio: &Vec<u8>) -> (r: (Self, ExchangeAction))
        requires
            audio@.len() <= isize::MAX,
        ensures
            r.0.wf(),
            r.0.phase() == Phase::Connecting,
            r.0.opening() == handshake_texts(audio@),
            r.0.chunks() == Seq::<Seq<char>>::empty(),
            r.1 is Connect,
    {
        let ex = Exchange {
            phase: Phase::Connecting,
            opening: handshake(audio),
            sent: 0,
            session: UpstreamSession::new(),
            pending: Vec::new(),
            forwarded: 0,
            closing: false,
        };
        assert(views(ex.opening@).len() == ex.opening@.len());
        (ex, ExchangeAction::Connect)
    }

    /// Whether `ev` is a report on the action that the exchange asked for last.
    pub open spec fn fits(&self, ev: &ExchangeEvent) -> bool {
        match self.phase() {
            Phase::Connecting => ev is Connected || ev is ConnectFailed,
            Phase::Opening => ev is Sent || ev is SendFailed,
            Phase::Receiving => ev is Received || ev is Ended,
            Phase::Forwarding => ev is Forwarded || ev is ForwardFailed,
            Phase::Over => false,
        }
    }

    /// Tells whether `ev` is a report on the action asked for last.
    pub fn accepts(&self, ev: &ExchangeEvent) -> (r: bool)
        ensures
            r == self.fits(ev),
    {
        match self.phase {
            Phase::Connecting => matches!(ev, ExchangeEvent::Connected | ExchangeEvent::ConnectFailed(_)),
            Phase::Opening => matches!(ev, ExchangeEvent::Sent | ExchangeEvent::SendFailed(_)),
            Phase::Receiving => matches!(ev, ExchangeEvent::Received(_) | ExchangeEvent::Ended),
            Phase::Forwarding => matches!(ev, ExchangeEvent::Forwarded | ExchangeEvent::ForwardFailed(_)),
            Phase::Over => false,
        }
    }

    /// Ends the exchange with `outcome`.
    fn finish(&mut self, outcome: Result<(), RelayError>) -> (r: ExchangeAction)
        requires
            old(self).wf(),
        ensures
            final(self).wf(),
            final(self).phase() == Phase::Over,
            final(self).chunks() == old(self).chunks(),
            final(self).opening() == old(self).opening(),
            r matches ExchangeAction::Finish(o) && o == outcome,
    {
        self.phase = Phase::Over;
        ExchangeAction::Finish(outcome)
    }

    /// Takes the report `ev` on the last action and says what comes next.
    /// The opening events go out one by one in their order once connected,
    /// then each message from the service is handled as the session decides
    /// and the texts it calls for go to the client one by one. Any failure
    /// ends the exchange with the matching error, a close or the end of the
    /// stream ends it quietly, and passing on the completion message ends it.
    pub fn on_event(&mut self, ev: ExchangeEvent) -> (r: ExchangeAction)
        requires
            old(self).wf(),
            old(self).fits(&ev),
        ensures
            final(self).wf(),
            ev is Connected ==> final(self).phase() == Phase::Opening && final(self).sent() == 0
                && (r matches ExchangeAction::SendUpstream(t) && t@ == old(self).opening()[0]),
            ev matches ExchangeEvent::ConnectFailed(d) ==> final(self).phase() == Phase::Over
                && (r matches ExchangeAction::Finish(Err(RelayError::ConnectError(e))) && e == d),
            ev is Sent && old(self).sent() + 1 < 4 ==> final(self).phase() == Phase::Opening
                && final(self).sent() == old(self).sent() + 1
                && (r matches ExchangeAction::SendUpstream(t)
                && t@ == old(self).opening()[old(self).sent() + 1 as int]),
            ev is Sent && old(self).sent() + 1 >= 4 ==> final(self).phase() == Phase::Receiving
                && r is Receive,
            ev matches ExchangeEvent::SendFailed(d) ==> final(self).phase() == Phase::Over
                && (r matches ExchangeAction::Finish(Err(RelayError::SendError(e))) && e == d),
            ev matches ExchangeEvent::Received(UpstreamMessage::Text(t)) ==> if event_type_of(t@) is Some {
                final(self).phase() == Phase::Forwarding
                    && final(self).chunks() == chunks_after(old(self).chunks(), t@)
                    && final(self).pending() == outputs_for(old(self).chunks(), t@)
                    && final(self).forwarded() == 0 && final(self).closing() == is_done(t@)
                    && (r matches ExchangeAction::SendClient(x) && x@ == t@)
            } else {
                final(self).phase() == Phase::Over
                    && (r matches ExchangeAction::Finish(Err(RelayError::MalformedEvent(_))))
            },
            ev matches ExchangeEvent::Received(UpstreamMessage::Close) ==> final(self).phase() == Phase::Over
                && (r matches ExchangeAction::Finish(Ok(()))),
            ev matches ExchangeEvent::Received(UpstreamMessage::TransportError(d)) ==> final(self).phase() == Phase::Over
                && (r matches ExchangeAction::Finish(Err(RelayError::UpstreamTransportError(e))) && e == d),
            ev matches ExchangeEvent::Received(UpstreamMessage::Other) ==> final(self).phase() == Phase::Receiving
                && final(self).chunks() == old(self).chunks() && r is Receive,
            ev is Ended ==> final(self).phase() == Phase::Over && (r matches ExchangeAction::Finish(Ok(()))),
            ev is Forwarded && old(self).forwarded() + 1 < old(self).pending().len() ==> final(self).phase()
                == Phase::Forwarding && final(self).forwarded() == old(self).forwarded() + 1
                && final(self).pending() == old(self).pending() && final(self).closing() == old(self).closing()
                && (r matches ExchangeAction::SendClient(x)
                && x@ == old(self).pending()[old(self).forwarded() + 1 as int]),
            ev is Forwarded && old(self).forwarded() + 1 >= old(self).pending().len() && old(self).closing()
                ==> final(self).phase() == Phase::Over && (r matches ExchangeAction::Finish(Ok(()))),
            ev is Forwarded && old(self).forwarded() + 1 >= old(self).pending().len() && !old(self).closing()
                ==> final(self).phase() == Phase::Receiving && r is Receive,
            ev matches ExchangeEvent::ForwardFailed(d) ==> final(self).phase() == Phase::Over
                && (r matches ExchangeAction::Finish(Err(RelayError::ClientForwardError(e))) && e == d),
            final(self).opening() == old(self).opening(),
            !(ev is Received) ==> final(self).chunks() == old(self).chunks(),
    {
        match ev {
            ExchangeEvent::Connected => {
                self.phase = Phase::Opening;
                self.sent = 0;
                let first = self.opening[0].clone();
                assert(first@ == self.opening()[0]);
                ExchangeAction::SendUpstream(first)
            },
            ExchangeEvent::ConnectFailed(d) => self.finish(Err(RelayError::ConnectError(d))),
            ExchangeEvent::Sent => {
                self.sent = self.sent + 1;
                if self.sent < 4 {
                    ExchangeAction::SendUpstream(self.opening[self.sent].clone())
                } else {
                    self.phase = Phase::Receiving;
                    ExchangeAction::Receive
                }
            },
            ExchangeEvent::SendFailed(d) => self.finish(Err(RelayError::SendError(d))),
            ExchangeEvent::Received(msg) => match self.session.on_message(msg) {
                Err(e) => self.finish(Err(e)),
                Ok(step) => {
                    assert(views(step.to_client@).len() == step.to_client@.len());
                    if step.to_client.len() == 0 {
                        if step.finished {
                            self.finish(Ok(()))
                        } else {
                            ExchangeAction::Receive
                        }
                    } else {
                        let first = step.to_client[0].clone();
                        assert(first@ == views(step.to_client@)[0]);
                        self.pending = step.to_client;
                        self.forwarded = 0;
                        self.closing = step.finished;
                        self.phase = Phase::Forwarding;
                        ExchangeAction::SendClient(first)
                    }
                },
            },
            ExchangeEvent::Ended => self.finish(Ok(())),
            ExchangeEvent::Forwarded => {
                let n = self.pending.len();
                let next = self.forwarded + 1;
                if next < n {
                    self.forwarded = next;
                    ExchangeAction::SendClient(self.pending[next].clone())
                } else if self.closing {
                    self.finish(Ok(()))
                } else {
                    self.phase = Phase::Receiving;
                    ExchangeAction::Receive
                }
            },
            ExchangeEvent::ForwardFailed(d) => self.finish(Err(RelayError::ClientForwardError(d))),
        }
    }
}

} // verus!
