//! The settings of the process and the fixed address of the speech service.
use vstd::prelude::*;
use vstd::string::*;
use crate::error::RelayError;

verus! {

/// The address of the speech service's realtime endpoint.
pub const REALTIME_URL: &'static str =
    "wss://api.openai.com/v1/realtime?model=gpt-4o-realtime-preview-2024-10-01";

/// The header that names the protocol version, and its value.
pub const BETA_HEADER: &'static str = "OpenAI-Beta";

pub const BETA_VALUE: &'static str = "realtime=v1";

/// The settings of the process.
#[derive(Debug)]
pub struct Settings {
    pub openai_api_key: String,
}

/// The value of the authorization header for the credential `key`.
pub open spec fn bearer_text(key: Seq<char>) -> Seq<char> {
    "Bearer "@ + key
}

impl Settings {
    /// The settings for the credential found in the environment, if one was:
    /// without one the process cannot serve.
    pub fn from_value(value: Option<String>) -> (r: Result<Settings, RelayError>)
        ensures
            match value {
                Some(k) => r matches Ok(s) && s.openai_api_key == k,
                None => r matches Err(RelayError::ConfigMissing),
            },
    {
        match value {
            Some(k) => Ok(Settings { openai_api_key: k }),
            None => Err(RelayError::ConfigMissing),
        }
    }

    /// The value of the authorization header sent to the speech service.
    pub fn authorization(&self) -> (r: String)
        ensures
            r@ == bearer_text(self.openai_api_key@),
    {
        let mut out = String::from_str("Bearer ");
        out.append(self.openai_api_key.as_str());
        out
    }
}

} // verus!
