//! One exchange with the speech service, after the opening events have been
//! sent: each message that comes back is passed on to the client, transcript
//! fragments are gathered, and the completion of the response is announced
//! with the whole transcript.
use vstd::prelude::*;
use vstd::string::*;
use crate::json::{json_quote, json_quoted};
use crate::messages::{OpenAIEvent, event_type_of, event_delta_of, views};
use crate::error::{RelayError, malformed_event_text};

verus! {

/// The type of the events that carry a fragment of the spoken transcript.
pub open spec fn delta_type() -> Seq<char> {
    "response.audio_transcript.delta"@
}

/// The type of the event that ends a response.
pub open spec fn done_type() -> Seq<char> {
    "response.done"@
}

/// Whether the event `raw` ends the response.
pub open spec fn is_done(raw: Seq<char>) -> bool {
    event_type_of(raw) == Some(done_type())
}

/// The fragments gathered once the event `raw` has come after `chunks`.
pub open spec fn chunks_after(chunks: Seq<Seq<char>>, raw: Seq<char>) -> Seq<Seq<char>> {
    if event_type_of(raw) == Some(delta_type()) && event_delta_of(raw) is Some {
        chunks.push(event_delta_of(raw)->0)
    } else {
        chunks
    }
}

/// The fragments of `parts`, joined in order.
pub open spec fn concat_all(parts: Seq<Seq<char>>) -> Seq<char>
    decreases parts.len(),
{
    if parts.len() == 0 {
        Seq::empty()
    } else {
        concat_all(parts.drop_last()) + parts.last()
    }
}

/// The message that tells the client the response is complete, with its transcript.
pub open spec fn completion_text(transcript: Seq<char>) -> Seq<char> {
    "{\"type\":\"response_complete\",\"transcript\":"@ + json_quoted(transcript) + "}"@
}

/// What goes to the client when the event `raw` arrives after `chunks`:
/// the event itself, then, where it ends the response, the completion message.
pub open spec fn outputs_for(chunks: Seq<Seq<char>>, raw: Seq<char>) -> Seq<Seq<char>> {
    if is_done(raw) {
        seq![raw, completion_text(concat_all(chunks_after(chunks, raw)))]
    } else {
        seq![raw]
    }
}

/// A message from the speech service.
#[derive(Debug)]
pub enum UpstreamMessage {
    Text(String),
    Close,
    TransportError(String),
    /// Any other frame (binary, ping, pong), which is passed over.
    Other,
}

/// What one message from the service calls for: the texts to send to the
/// client, in order, and whether the exchange is over.
#[derive(Debug)]
pub struct Step {
    pub to_client: Vec<String>,
    pub finished: bool,
}

/// The state of one exchange: the transcript fragments received so far.
#[derive(Debug)]
pub struct UpstreamSession {
    transcript: Vec<String>,
}

impl UpstreamSession {
    /// The fragments received so far, in order.
    pub closed spec fn chunks(&self) -> Seq<Seq<char>> {
        views(self.transcript@)
    }

    /// A session that has received nothing yet.
    pub fn new() -> (r: Self)
        ensures
            r.chunks() == Seq::<Seq<char>>::empty(),
    {
        let r = UpstreamSession { transcript: Vec::new() };
        assert(r.chunks() =~= Seq::<Seq<char>>::empty());
        r
    }

    /// The transcript so far: the fragments joined in order.
    pub fn transcript(&self) -> (r: String)
        ensures
            r@ == concat_all(self.chunks()),
    {
        let mut out = String::new();
        let mut i: usize = 0;
        while i < self.transcript.len()
            invariant
                i <= self.transcript@.len(),
                out@ == concat_all(views(self.transcript@.subrange(0, i as int))),
            decreases self.transcript@.len() - i,
        {
            let ghost before = views(self.transcript@.subrange(0, i as int));
            let ghost after = views(self.transcript@.subrange(0, i + 1));
            assert(after.drop_last() =~= before);
            out.append(self.transcript[i].as_str());
            i += 1;
        }
        assert(self.transcript@.subrange(0, self.transcript@.len() as int) =~= self.transcript@);
        out
    }

    /// Handles one message from the service. A text is read as an event: a
    /// malformed one ends the exchange with an error and goes nowhere; any
    /// other is passed on to the client as it came, its fragment gathered where
    /// it carries one, and, where it ends the response, followed by the
    /// completion message. A close ends the exchange quietly, a transport
    /// error with that error; other frames are passed over.
    pub fn on_message(&mut self, msg: UpstreamMessage) -> (r: Result<Step, RelayError>)
        ensures
            match msg {
                UpstreamMessage::Text(t) => match r {
                    Ok(step) => event_type_of(t@) is Some && final(self).chunks() == chunks_after(
                        old(self).chunks(),
                        t@,
                    ) && views(step.to_client@) == outputs_for(old(self).chunks(), t@)
                        && step.finished == is_done(t@),
                    Err(e) => event_type_of(t@) is None && final(self).chunks() == old(
                        self,
                    ).chunks() && (e matches RelayError::MalformedEvent(d) && d@
                        == malformed_event_text()),
                },
                UpstreamMessage::Close => r matches Ok(step) && step.to_client@.len() == 0
                    && step.finished && final(self).chunks() == old(self).chunks(),
                UpstreamMessage::TransportError(d) => r matches Err(
                    RelayError::UpstreamTransportError(e),
                ) && e == d && final(self).chunks() == old(self).chunks(),
                UpstreamMessage::Other => r matches Ok(step) && step.to_client@.len() == 0
                    && !step.finished && final(self).chunks() == old(self).chunks(),
            },
    {
        match msg {
            UpstreamMessage::Text(text) => {
                let event = match OpenAIEvent::parse(text.as_str()) {
                    Ok(e) => e,
                    Err(e) => {
                        return Err(e);
                    },
                };
                let ghost old_chunks = self.chunks();
                let mut to_client: Vec<String> = Vec::new();
                let is_delta = event.event_type == String::from_str(
                    "response.audio_transcript.delta",
                );
                let finished = event.event_type == String::from_str("response.done");
                to_client.push(text);
                if is_delta {
                    match event.delta {
                        Some(d) => {
                            self.transcript.push(d);
                            assert(self.chunks() =~= chunks_after(old_chunks, text@));
                        },
                        None => {},
                    }
                }
                assert(self.chunks() =~= chunks_after(old_chunks, text@));
                if finished {
                    let mut done = String::from_str(
                        "{\"type\":\"response_complete\",\"transcript\":",
                    );
                    let joined = self.transcript();
                    let q = json_quote(joined.as_str());
                    done.append(q.as_str());
                    done.append("}");
                    to_client.push(done);
                }
                assert(views(to_client@) =~= outputs_for(old_chunks, text@));
                Ok(Step { to_client, finished })
            },
            UpstreamMessage::Close => Ok(Step { to_client: Vec::new(), finished: true }),
            UpstreamMessage::TransportError(d) => Err(RelayError::UpstreamTransportError(d)),
            UpstreamMessage::Other => Ok(Step { to_client: Vec::new(), finished: false }),
        }
    }
}

/// What a session that starts from `chunks` has gathered, sent to the
/// client, and whether it is over, once the texts `raws` have come in turn.
/// Texts after the end of the response change nothing.
pub open spec fn run(chunks: Seq<Seq<char>>, raws: Seq<Seq<char>>) -> (
    Seq<Seq<char>>,
    Seq<Seq<char>>,
    bool,
)
    decreases raws.len(),
{
    if raws.len() == 0 {
        (chunks, Seq::empty(), false)
    } else {
        let (c, out, finished) = run(chunks, raws.drop_last());
        if finished {
            (c, out, finished)
        } else {
            (chunks_after(c, raws.last()), out + outputs_for(c, raws.last()), is_done(raws.last()))
        }
    }
}

/// The `delta` of each event of `raws` typed as a transcript fragment, in order.
pub open spec fn deltas_of(raws: Seq<Seq<char>>) -> Seq<Seq<char>>
    decreases raws.len(),
{
    if raws.len() == 0 {
        Seq::empty()
    } else {
        let last = raws.last();
        match event_delta_of(last) {
            Some(d) => if event_type_of(last) == Some(delta_type()) {
                deltas_of(raws.drop_last()).push(d)
            } else {
                deltas_of(raws.drop_last())
            },
            None => deltas_of(raws.drop_last()),
        }
    }
}

/// Over a fresh session fed well-formed events of which none but the last
/// ends the response: the client receives every event verbatim, once and in
/// the order of arrival, and only then, where the last one ends the response,
/// the completion message, whose transcript is the concatenation in order of
/// the fragments of all delta events, empty where there were none.
pub proof fn lemma_run_forwards_and_joins(raws: Seq<Seq<char>>)
    requires
        forall|i: int| 0 <= i < raws.len() ==> event_type_of(#[trigger] raws[i]) is Some,
        forall|i: int| 0 <= i < raws.len() - 1 ==> !is_done(#[trigger] raws[i]),
    ensures
        run(Seq::empty(), raws).0 == deltas_of(raws),
        run(Seq::empty(), raws).2 == (raws.len() > 0 && is_done(raws.last())),
        run(Seq::empty(), raws).1 == if raws.len() > 0 && is_done(raws.last()) {
            raws.push(completion_text(concat_all(deltas_of(raws))))
        } else {
            raws
        },
        deltas_of(raws).len() == 0 ==> concat_all(deltas_of(raws)) == Seq::<char>::empty(),
    decreases raws.len(),
{
    if raws.len() > 0 {
        let prefix = raws.drop_last();
        assert forall|i: int| 0 <= i < prefix.len() implies event_type_of(#[trigger] prefix[i]) is Some by {
            assert(prefix[i] == raws[i]);
        }
        assert forall|i: int| 0 <= i < prefix.len() - 1 implies !is_done(#[trigger] prefix[i]) by {
            assert(prefix[i] == raws[i]);
        }
        lemma_run_forwards_and_joins(prefix);
        if prefix.len() > 0 {
            assert(prefix.last() == raws[raws.len() - 2]);
        }
        let last = raws.last();
        let c = deltas_of(prefix);
        assert(chunks_after(c, last) == deltas_of(raws));
        if is_done(last) {
            assert(prefix + outputs_for(c, last) =~= raws.push(
                completion_text(concat_all(deltas_of(raws))),
            ));
        } else {
            assert(prefix + outputs_for(c, last) =~= raws);
        }
    }
}

} // verus!
