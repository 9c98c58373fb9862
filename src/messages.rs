//! The four events sent to the speech service, in the JSON text that goes on
//! the wire, and the event read back from it.
use vstd::prelude::*;
use vstd::string::*;
use base64::Engine;
use crate::json::{json_quote, json_quoted, json_str_member, json_str_member_of, decimal, decimal_of};
use crate::error::{RelayError, malformed_event_text};

verus! {

/// What each string of a sequence reads.
pub open spec fn views(v: Seq<String>) -> Seq<Seq<char>> {
    v.map_values(|s: String| s@)
}

/// The quoted strings of `items`, separated by commas.
pub open spec fn json_array_items(items: Seq<Seq<char>>) -> Seq<char>
    decreases items.len(),
{
    if items.len() == 0 {
        Seq::empty()
    } else if items.len() == 1 {
        json_quoted(items[0])
    } else {
        json_array_items(items.drop_last()) + ","@ + json_quoted(items.last())
    }
}

/// The JSON array of the strings `items`.
pub open spec fn json_str_array(items: Seq<Seq<char>>) -> Seq<char> {
    "["@ + json_array_items(items) + "]"@
}

/// Writes the JSON array of the strings of `items`.
pub fn str_array_json(items: &Vec<String>) -> (r: String)
    ensures
        r@ == json_str_array(views(items@)),
{
    let mut out = String::from_str("[");
    let mut i: usize = 0;
    while i < items.len()
        invariant
            i <= items@.len(),
            out@ == "["@ + json_array_items(views(items@.subrange(0, i as int))),
        decreases items@.len() - i,
    {
        let ghost before = views(items@.subrange(0, i as int));
        let ghost after = views(items@.subrange(0, i + 1));
        assert(after.drop_last() =~= before);
        assert(after.last() == items@[i as int]@);
        if i > 0 {
            out.append(",");
        }
        let q = json_quote(items[i].as_str());
        out.append(q.as_str());
        i += 1;
    }
    assert(items@.subrange(0, items@.len() as int) =~= items@);
    out.append("]");
    out
}


/// The text of the transcription settings naming `model`.
pub open spec fn transcription_text(model: Seq<char>) -> Seq<char> {
    "{\"model\":"@ + json_quoted(model) + "}"@
}

/// The text of the session settings; `turn` is the JSON text of the turn
/// detection settings, left out where absent.
pub open spec fn session_config_text(
    modalities: Seq<Seq<char>>,
    instructions: Seq<char>,
    voice: Seq<char>,
    input_format: Seq<char>,
    output_format: Seq<char>,
    transcription: Seq<char>,
    turn: Option<Seq<char>>,
) -> Seq<char> {
    "{\"modalities\":"@ + json_str_array(modalities) + ",\"instructions\":"@ + json_quoted(
        instructions,
    ) + ",\"voice\":"@ + json_quoted(voice) + ",\"inputAudioFormat\":"@ + json_quoted(input_format)
        + ",\"outputAudioFormat\":"@ + json_quoted(output_format) + ",\"inputAudioTranscription\":"@
        + transcription + match turn {
        Some(t) => ",\"turnDetection\":"@ + t,
        None => Seq::empty(),
    } + "}"@
}

/// The text of a session update event of type `ty` carrying the settings text `config`.
pub open spec fn session_update_text(ty: Seq<char>, config: Seq<char>) -> Seq<char> {
    "{\"type\":"@ + json_quoted(ty) + ",\"session\":"@ + config + "}"@
}

/// The text of an audio append event of type `ty` carrying the encoded `audio`.
pub open spec fn audio_append_text(ty: Seq<char>, audio: Seq<char>, sequence_id: Option<int>) -> Seq<
    char,
> {
    "{\"type\":"@ + json_quoted(ty) + ",\"audio\":"@ + json_quoted(audio) + match sequence_id {
        Some(n) => ",\"sequence_id\":"@ + decimal_of(n),
        None => Seq::empty(),
    } + "}"@
}

/// The text of an event that carries its type `ty` alone.
pub open spec fn commit_text(ty: Seq<char>) -> Seq<char> {
    "{\"type\":"@ + json_quoted(ty) + "}"@
}

/// The text of the response settings asking for `modalities`.
pub open spec fn response_config_text(modalities: Seq<Seq<char>>) -> Seq<char> {
    "{\"modalities\":"@ + json_str_array(modalities) + "}"@
}

/// The text of a response request of type `ty` carrying the settings text `config`.
pub open spec fn response_create_text(ty: Seq<char>, config: Seq<char>) -> Seq<char> {
    "{\"type\":"@ + json_quoted(ty) + ",\"response\":"@ + config + "}"@
}

/// The modalities asked of the service: text and audio.
pub open spec fn both_modalities() -> Seq<Seq<char>> {
    seq!["text"@, "audio"@]
}

/// Writes the two modalities asked of the service.
pub fn both_modalities_vec() -> (r: Vec<String>)
    ensures
        views(r@) == both_modalities(),
{
    let mut v: Vec<String> = Vec::new();
    v.push(String::from_str("text"));
    v.push(String::from_str("audio"));
    assert(views(v@) =~= both_modalities());
    v
}

/// Settings of the transcription of the submitted audio.
#[derive(Debug)]
pub struct TranscriptionConfig {
    pub model: String,
}

impl TranscriptionConfig {
    pub open spec fn json(&self) -> Seq<char> {
        transcription_text(self.model@)
    }

    /// Writes the JSON text of the settings.
    pub fn to_json(&self) -> (r: String)
        ensures
            r@ == self.json(),
    {
        let mut out = String::from_str("{\"model\":");
        let q = json_quote(self.model.as_str());
        out.append(q.as_str());
        out.append("}");
        out
    }
}

/// Settings of the session with the speech service.
#[derive(Debug)]
pub struct SessionConfig {
    pub modalities: Vec<String>,
    pub instructions: String,
    pub voice: String,
    pub input_audio_format: String,
    pub output_audio_format: String,
    pub input_audio_transcription: TranscriptionConfig,
    /// The JSON text of the turn detection settings; none are sent where absent.
    pub turn_detection: Option<String>,
}

impl SessionConfig {
    pub open spec fn turn_view(&self) -> Option<Seq<char>> {
        match self.turn_detection {
            Some(t) => Some(t@),
            None => None,
        }
    }

    pub open spec fn json(&self) -> Seq<char> {
        session_config_text(
            views(self.modalities@),
            self.instructions@,
            self.voice@,
            self.input_audio_format@,
            self.output_audio_format@,
            self.input_audio_transcription.json(),
            self.turn_view(),
        )
    }

    /// Writes the JSON text of the settings.
    pub fn to_json(&self) -> (r: String)
        ensures
            r@ == self.json(),
    {
        let mut out = String::from_str("{\"modalities\":");
        let a = str_array_json(&self.modalities);
        out.append(a.as_str());
        out.append(",\"instructions\":");
        let q = json_quote(self.instructions.as_str());
        out.append(q.as_str());
        out.append(",\"voice\":");
        let q = json_quote(self.voice.as_str());
        out.append(q.as_str());
        out.append(",\"inputAudioFormat\":");
        let q = json_quote(self.input_audio_format.as_str());
        out.append(q.as_str());
        out.append(",\"outputAudioFormat\":");
        let q = json_quote(self.output_audio_format.as_str());
        out.append(q.as_str());
        out.append(",\"inputAudioTranscription\":");
        let t = self.input_audio_transcription.to_json();
        out.append(t.as_str());
        let ghost head = out@;
        match &self.turn_detection {
            Some(t) => {
                out.append(",\"turnDetection\":");
                out.append(t.as_str());
                assert(out@ =~= head + (",\"turnDetection\":"@ + t@));
            },
            None => {
                assert(out@ =~= head + Seq::<char>::empty());
            },
        }
        out.append("}");
        out
    }
}

/// What the assistant is told to be.
pub const INSTRUCTIONS: &'static str =
    "You are a helpful AI assistant. Have a natural conversation with the user in English.";

/// The text of the fixed session settings: text and audio, the fixed
/// instructions and voice, 16-bit PCM both ways, the fixed transcription
/// model, and no turn detection.
pub open spec fn fixed_session_config_text() -> Seq<char> {
    session_config_text(
        both_modalities(),
        INSTRUCTIONS@,
        "alloy"@,
        "pcm16"@,
        "pcm16"@,
        transcription_text("whisper-1"@),
        None,
    )
}

/// The text of the session update event that opens every exchange.
pub open spec fn fixed_session_update_text() -> Seq<char> {
    session_update_text("session.update"@, fixed_session_config_text())
}

/// The event that configures the session.
#[derive(Debug)]
pub struct SessionUpdate {
    pub event_type: String,
    pub session: SessionConfig,
}

impl SessionUpdate {
    pub open spec fn json(&self) -> Seq<char> {
        session_update_text(self.event_type@, self.session.json())
    }

    /// The session update with the fixed settings.
    pub fn new() -> (r: Self)
        ensures
            r.json() == fixed_session_update_text(),
    {
        SessionUpdate {
            event_type: String::from_str("session.update"),
            session: SessionConfig {
                modalities: both_modalities_vec(),
                instructions: String::from_str(INSTRUCTIONS),
                voice: String::from_str("alloy"),
                input_audio_format: String::from_str("pcm16"),
                output_audio_format: String::from_str("pcm16"),
                input_audio_transcription: TranscriptionConfig {
                    model: String::from_str("whisper-1"),
                },
                turn_detection: None,
            },
        }
    }

    /// Writes the JSON text of the event.
    pub fn to_json(&self) -> (r: String)
        ensures
            r@ == self.json(),
    {
        let mut out = String::from_str("{\"type\":");
        let q = json_quote(self.event_type.as_str());
        out.append(q.as_str());
        out.append(",\"session\":");
        let c = self.session.to_json();
        out.append(c.as_str());
        out.append("}");
        out
    }
}

/// The event that hands the service the submitted audio, encoded in base64.
#[derive(Debug)]
pub struct AudioAppend {
    pub event_type: String,
    pub audio: String,
    pub sequence_id: Option<i32>,
}

impl AudioAppend {
    pub open spec fn sequence_view(&self) -> Option<int> {
        match self.sequence_id {
            Some(n) => Some(n as int),
            None => None,
        }
    }

    pub open spec fn json(&self) -> Seq<char> {
        audio_append_text(self.event_type@, self.audio@, self.sequence_view())
    }

    /// The append event carrying `audio`, already encoded, without a sequence number.
    pub fn new(audio: String) -> (r: Self)
        ensures
            r.event_type@ == "input_audio_buffer.append"@,
            r.audio == audio,
            r.sequence_id is None,
    {
        AudioAppend {
            event_type: String::from_str("input_audio_buffer.append"),
            audio,
            sequence_id: None,
        }
    }

    /// Writes the JSON text of the event.
    pub fn to_json(&self) -> (r: String)
        ensures
            r@ == self.json(),
    {
        let mut out = String::from_str("{\"type\":");
        let q = json_quote(self.event_type.as_str());
        out.append(q.as_str());
        out.append(",\"audio\":");
        let q = json_quote(self.audio.as_str());
        out.append(q.as_str());
        let ghost head = out@;
        match self.sequence_id {
            Some(n) => {
                out.append(",\"sequence_id\":");
                let d = decimal(n);
                out.append(d.as_str());
                assert(out@ =~= head + (",\"sequence_id\":"@ + decimal_of(n as int)));
            },
            None => {
                assert(out@ =~= head + Seq::<char>::empty());
            },
        }
        out.append("}");
        out
    }
}

/// The event that closes the audio buffer.
#[derive(Debug)]
pub struct Commit {
    pub event_type: String,
}

impl Default for Commit {
    fn default() -> (r: Self)
        ensures
            r.event_type@ == "input_audio_buffer.commit"@,
    {
        Commit { event_type: String::from_str("input_audio_buffer.commit") }
    }
}

impl Commit {
    pub open spec fn json(&self) -> Seq<char> {
        commit_text(self.event_type@)
    }

    /// Writes the JSON text of the event.
    pub fn to_json(&self) -> (r: String)
        ensures
            r@ == self.json(),
    {
        let mut out = String::from_str("{\"type\":");
        let q = json_quote(self.event_type.as_str());
        out.append(q.as_str());
        out.append("}");
        out
    }
}

/// Settings of the response asked for.
#[derive(Debug)]
pub struct ResponseConfig {
    pub modalities: Vec<String>,
}

impl ResponseConfig {
    pub open spec fn json(&self) -> Seq<char> {
        response_config_text(views(self.modalities@))
    }

    /// Writes the JSON text of the settings.
    pub fn to_json(&self) -> (r: String)
        ensures
            r@ == self.json(),
    {
        let mut out = String::from_str("{\"modalities\":");
        let a = str_array_json(&self.modalities);
        out.append(a.as_str());
        out.append("}");
        out
    }
}

/// The text of the request for a response in text and audio.
pub open spec fn fixed_response_create_text() -> Seq<char> {
    response_create_text("response.create"@, response_config_text(both_modalities()))
}

/// The event that asks the service for its response.
#[derive(Debug)]
pub struct ResponseCreate {
    pub event_type: String,
    pub response: ResponseConfig,
}

impl Default for ResponseCreate {
    fn default() -> (r: Self)
        ensures
            r.event_type@ == "response.create"@,
            views(r.response.modalities@) == both_modalities(),
    {
        ResponseCreate {
            event_type: String::from_str("response.create"),
            response: ResponseConfig { modalities: both_modalities_vec() },
        }
    }
}

impl ResponseCreate {
    pub open spec fn json(&self) -> Seq<char> {
        response_create_text(self.event_type@, self.response.json())
    }

    /// Writes the JSON text of the event.
    pub fn to_json(&self) -> (r: String)
        ensures
            r@ == self.json(),
    {
        let mut out = String::from_str("{\"type\":");
        let q = json_quote(self.event_type.as_str());
        out.append(q.as_str());
        out.append(",\"response\":");
        let c = self.response.to_json();
        out.append(c.as_str());
        out.append("}");
        out
    }
}

/// The standard base64 encoding of `b`, with padding.
pub uninterp spec fn base64_of(b: Seq<u8>) -> Seq<char>;

/// Relies on `base64::engine::general_purpose::STANDARD.encode`: the standard
/// base64 alphabet with padding. It panics only where the encoded length
/// overflows `usize`, which no byte vector reaches.
#[verifier::external_body]
fn base64_encode(b: &Vec<u8>) -> (r: String)
    requires
        b@.len() <= isize::MAX,
    ensures
        r@ == base64_of(b@),
{
    base64::engine::general_purpose::STANDARD.encode(b)
}

/// The text of the event that carries `audio`.
pub open spec fn audio_event_text(audio: Seq<u8>) -> Seq<char> {
    audio_append_text("input_audio_buffer.append"@, base64_of(audio), None)
}

/// The events that open an exchange about `audio`, in the order they are
/// sent: the session settings, the audio, the commit of the audio, and the
/// request for a response.
pub open spec fn handshake_texts(audio: Seq<u8>) -> Seq<Seq<char>> {
    seq![
        fixed_session_update_text(),
        audio_event_text(audio),
        commit_text("input_audio_buffer.commit"@),
        fixed_response_create_text(),
    ]
}

/// Writes the event that carries `audio`.
pub fn build_audio_append(audio: &Vec<u8>) -> (r: String)
    requires
        audio@.len() <= isize::MAX,
    ensures
        r@ == audio_event_text(audio@),
{
    let encoded = base64_encode(audio);
    AudioAppend::new(encoded).to_json()
}

/// Writes the events that open an exchange about `audio`, in the order in
/// which they go to the service.
pub fn handshake(audio: &Vec<u8>) -> (r: Vec<String>)
    requires
        audio@.len() <= isize::MAX,
    ensures
        views(r@) == handshake_texts(audio@),
{
    let mut out: Vec<String> = Vec::new();
    out.push(SessionUpdate::new().to_json());
    out.push(build_audio_append(audio));
    let commit: Commit = Commit::default();
    out.push(commit.to_json());
    let create: ResponseCreate = ResponseCreate::default();
    out.push(create.to_json());
    assert(views(out@) =~= handshake_texts(audio@));
    out
}

/// An event received from the speech service: its type, and the text
/// fragment it carries, if any.
#[derive(Debug)]
pub struct OpenAIEvent {
    pub event_type: String,
    pub delta: Option<String>,
}

/// The type of the event that the text `raw` encodes, if it encodes one.
pub open spec fn event_type_of(raw: Seq<char>) -> Option<Seq<char>> {
    json_str_member_of(raw, "type"@)
}

/// The text fragment that the event `raw` carries, if any.
pub open spec fn event_delta_of(raw: Seq<char>) -> Option<Seq<char>> {
    json_str_member_of(raw, "delta"@)
}

impl OpenAIEvent {
    pub open spec fn delta_view(&self) -> Option<Seq<char>> {
        match self.delta {
            Some(d) => Some(d@),
            None => None,
        }
    }

    /// Reads the event in `raw`. Any type is accepted; a text without a
    /// string `type`, or no JSON at all, is a malformed event.
    pub fn parse(raw: &str) -> (r: Result<OpenAIEvent, RelayError>)
        ensures
            match r {
                Ok(e) => event_type_of(raw@) == Some(e.event_type@) && e.delta_view()
                    == event_delta_of(raw@),
                Err(err) => event_type_of(raw@) is None && (err matches RelayError::MalformedEvent(
                    d,
                ) && d@ == malformed_event_text()),
            },
    {
        match json_str_member(raw, "type") {
            Some(event_type) => {
                let delta = json_str_member(raw, "delta");
                Ok(OpenAIEvent { event_type, delta })
            },
            None => Err(
                RelayError::MalformedEvent(
                    String::from_str(
                        "the speech service sent a message that is no event with a type",
                    ),
                ),
            ),
        }
    }
}

} // verus!
