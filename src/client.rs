//! The client's side of the relay: the messages it is sent, and what each
//! message it sends calls for.
use vstd::prelude::*;
use vstd::string::*;
use crate::json::{json_quote, json_quoted, json_str_member, json_str_member_of};
use crate::error::RelayError;

verus! {

/// The message that tells the client the relay is ready.
pub open spec fn ready_text() -> Seq<char> {
    "{\"type\":\"ready\"}"@
}

/// The answer to a keepalive ping.
pub open spec fn pong_text() -> Seq<char> {
    "{\"type\":\"pong\"}"@
}

/// The message that reports the failure described by `description`.
pub open spec fn error_text(description: Seq<char>) -> Seq<char> {
    "{\"type\":\"error\",\"message\":"@ + json_quoted(description) + "}"@
}

/// What an empty audio submission is answered with.
pub open spec fn empty_audio_text() -> Seq<char> {
    "Audio data is empty"@
}

/// Whether the text `t` is a keepalive ping: a JSON object whose `type` is `ping`.
pub open spec fn is_ping(t: Seq<char>) -> bool {
    json_str_member_of(t, "type"@) == Some("ping"@)
}

/// Writes the message that tells the client the relay is ready.
pub fn ready_message() -> (r: String)
    ensures
        r@ == ready_text(),
{
    String::from_str("{\"type\":\"ready\"}")
}

/// Writes the answer to a keepalive ping.
pub fn pong_message() -> (r: String)
    ensures
        r@ == pong_text(),
{
    String::from_str("{\"type\":\"pong\"}")
}

/// Writes the message that reports the failure described by `description`.
pub fn error_message(description: &str) -> (r: String)
    ensures
        r@ == error_text(description@),
{
    let mut out = String::from_str("{\"type\":\"error\",\"message\":");
    let q = json_quote(description);
    out.append(q.as_str());
    out.append("}");
    out
}

/// A message from the client.
#[derive(Debug)]
pub enum ClientMessage {
    Binary(Vec<u8>),
    Text(String),
    Close,
    TransportError,
    /// Any other frame (ping, pong), which is passed over.
    Other,
}

/// What a message from the client calls for.
#[derive(Debug)]
pub enum ClientAction {
    /// Send this text to the client and wait for its next message.
    Reply(String),
    /// Run an exchange with the speech service about this audio.
    Submit(Vec<u8>),
    /// Wait for the client's next message.
    Ignore,
    /// The connection is over.
    Stop,
}

/// Decides what a message from the client calls for. Empty audio is answered
/// with an error and never reaches the speech service; other audio is
/// submitted; a ping is answered with a pong and other texts are passed over;
/// a close or a transport error ends the connection.
pub fn on_client_message(msg: ClientMessage) -> (r: ClientAction)
    ensures
        match msg {
            ClientMessage::Binary(b) => if b@.len() == 0 {
                r matches ClientAction::Reply(t) && t@ == error_text(empty_audio_text())
            } else {
                r matches ClientAction::Submit(a) && a@ == b@
            },
            ClientMessage::Text(t) => if is_ping(t@) {
                r matches ClientAction::Reply(p) && p@ == pong_text()
            } else {
                r is Ignore
            },
            ClientMessage::Close => r is Stop,
            ClientMessage::TransportError => r is Stop,
            ClientMessage::Other => r is Ignore,
        },
{
    match msg {
        ClientMessage::Binary(audio) => {
            if audio.len() == 0 {
                ClientAction::Reply(error_message("Audio data is empty"))
            } else {
                ClientAction::Submit(audio)
            }
        },
        ClientMessage::Text(text) => {
            let is_ping = match json_str_member(text.as_str(), "type") {
                Some(ty) => ty == String::from_str("ping"),
                None => false,
            };
            if is_ping {
                ClientAction::Reply(pong_message())
            } else {
                ClientAction::Ignore
            }
        },
        ClientMessage::Close => ClientAction::Stop,
        ClientMessage::TransportError => ClientAction::Stop,
        ClientMessage::Other => ClientAction::Ignore,
    }
}

/// What the client is told once an exchange is over: nothing where it went
/// through, else the message that reports its error.
pub fn on_submission_result(result: Result<(), RelayError>) -> (r: Option<String>)
    ensures
        match result {
            Ok(()) => r is None,
            Err(e) => r matches Some(t) && t@ == error_text(e.describe()),
        },
{
    match result {
        Ok(()) => None,
        Err(e) => {
            let d = e.description();
            Some(error_message(d.as_str()))
        },
    }
}

} // verus!
