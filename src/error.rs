//! What can go wrong while relaying one submission, or at start-up.
use vstd::prelude::*;
use vstd::string::*;

verus! {

/// Each kind of failure, with the description of its cause where there is one.
#[derive(Debug)]
pub enum RelayError {
    /// No credential for the speech service is configured.
    ConfigMissing,
    /// The connection to the speech service could not be opened.
    ConnectError(String),
    /// An event could not be sent to the speech service.
    SendError(String),
    /// The connection to the speech service failed while its answer came in.
    UpstreamTransportError(String),
    /// The speech service sent a text that is no event.
    MalformedEvent(String),
    /// A text could not be passed on to the client.
    ClientForwardError(String),
}

/// The text that describes a missing credential.
pub open spec fn config_missing_text() -> Seq<char> {
    "no credential for the speech service is configured"@
}

/// The text that describes a malformed event.
pub open spec fn malformed_event_text() -> Seq<char> {
    "the speech service sent a message that is no event with a type"@
}

impl RelayError {
    /// What the error says to the client.
    pub open spec fn describe(&self) -> Seq<char> {
        match self {
            RelayError::ConfigMissing => config_missing_text(),
            RelayError::ConnectError(d) => d@,
            RelayError::SendError(d) => d@,
            RelayError::UpstreamTransportError(d) => d@,
            RelayError::MalformedEvent(d) => d@,
            RelayError::ClientForwardError(d) => d@,
        }
    }

    /// The description of the error.
    pub fn description(&self) -> (r: String)
        ensures
            r@ == self.describe(),
    {
        match self {
            RelayError::ConfigMissing => String::from_str(
                "no credential for the speech service is configured",
            ),
            RelayError::ConnectError(d) => d.clone(),
            RelayError::SendError(d) => d.clone(),
            RelayError::UpstreamTransportError(d) => d.clone(),
            RelayError::MalformedEvent(d) => d.clone(),
            RelayError::ClientForwardError(d) => d.clone(),
        }
    }
}

} // verus!
