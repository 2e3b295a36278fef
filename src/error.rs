//! The three ways a call can fail.

use vstd::prelude::*;

verus! {

#[verifier::external_type_specification]
#[verifier::external_body]
pub struct ExReqwestError(reqwest::Error);

#[verifier::external_type_specification]
#[verifier::external_body]
pub struct ExJsonError(serde_json::Error);

/// A failed call. The three kinds are kept apart so that a caller can tell a
/// service that reported a problem from one whose answer did not parse.
#[derive(Debug)]
pub enum ClientError {
    /// The request could not be sent, or no response came back.
    Transport(reqwest::Error),
    /// A response of status 200 whose body is not of the expected shape.
    Decode(serde_json::Error),
    /// A response of any other status: its code, and its body as it came.
    Api { status_code: u16, message: String },
}

impl ClientError {
    /// The status code of an API failure; `None` for the other kinds.
    pub fn status_code(&self) -> (r: Option<u16>)
        ensures
            r == (match self {
                ClientError::Api { status_code, .. } => Some(*status_code),
                _ => None,
            }),
    {
        match self {
            ClientError::Api { status_code, .. } => Some(*status_code),
            _ => None,
        }
    }
}

impl From<reqwest::Error> for ClientError {
    fn from(e: reqwest::Error) -> (r: Self)
        ensures
            r == ClientError::Transport(e),
    {
        ClientError::Transport(e)
    }
}

impl vstd::std_specs::convert::FromSpecImpl<reqwest::Error> for ClientError {
    open spec fn obeys_from_spec() -> bool {
        true
    }

    open spec fn from_spec(e: reqwest::Error) -> Self {
        ClientError::Transport(e)
    }
}

impl From<serde_json::Error> for ClientError {
    fn from(e: serde_json::Error) -> (r: Self)
        ensures
            r == ClientError::Decode(e),
    {
        ClientError::Decode(e)
    }
}

impl vstd::std_specs::convert::FromSpecImpl<serde_json::Error> for ClientError {
    open spec fn obeys_from_spec() -> bool {
        true
    }

    open spec fn from_spec(e: serde_json::Error) -> Self {
        ClientError::Decode(e)
    }
}

} // verus!
