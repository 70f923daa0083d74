use crate::utils::text::{chain, chain3};
use vstd::prelude::*;
use vstd::string::StringExecFns;

verus! {

/// Errors that can occur when interacting with the Webull API.
#[derive(Debug, Clone, PartialEq, Eq)]
pub enum WebullError {
    /// Authentication error
    AuthenticationError(String),
    /// API error with code and message
    ApiError { code: String, message: String },
    /// Rate limit exceeded
    RateLimitExceeded,
    /// Network error, with the transport's description of it
    NetworkError(String),
    /// Invalid request
    InvalidRequest(String),
    /// Serialization error, with the codec's description of it
    SerializationError(String),
    /// MFA required
    MfaRequired,
    /// Unauthorized
    Unauthorized,
    /// Unknown error
    Unknown(String),
}

impl WebullError {
    /// The error in words, as it is shown to a user.
    pub open spec fn description(self) -> Seq<char> {
        match self {
            WebullError::AuthenticationError(why) => "Authentication error: "@ + why@,
            WebullError::ApiError { code, message } => "API error: "@ + code@ + " - "@ + message@,
            WebullError::RateLimitExceeded => "Rate limit exceeded"@,
            WebullError::NetworkError(why) => "Network error: "@ + why@,
            WebullError::InvalidRequest(why) => "Invalid request: "@ + why@,
            WebullError::SerializationError(why) => "Serialization error: "@ + why@,
            WebullError::MfaRequired => "MFA required"@,
            WebullError::Unauthorized => "Unauthorized"@,
            WebullError::Unknown(why) => "Unknown error: "@ + why@,
        }
    }

    /// The error in words, as it is shown to a user.
    pub fn to_string(&self) -> (text: String)
        ensures
            text@ == self.description(),
    {
        match self {
            WebullError::AuthenticationError(why) => chain("Authentication error: ", why.as_str()),
            WebullError::ApiError { code, message } => {
                let mut text = chain3("API error: ", code.as_str(), " - ");
                text.append(message.as_str());
                text
            },
            WebullError::RateLimitExceeded => "Rate limit exceeded".to_owned(),
            WebullError::NetworkError(why) => chain("Network error: ", why.as_str()),
            WebullError::InvalidRequest(why) => chain("Invalid request: ", why.as_str()),
            WebullError::SerializationError(why) => chain("Serialization error: ", why.as_str()),
            WebullError::MfaRequired => "MFA required".to_owned(),
            WebullError::Unauthorized => "Unauthorized".to_owned(),
            WebullError::Unknown(why) => chain("Unknown error: ", why.as_str()),
        }
    }
}

/// Whether an error is an invalid request with the given reason.
pub open spec fn is_invalid_request(error: WebullError, why: Seq<char>) -> bool {
    error matches WebullError::InvalidRequest(text) && text@ == why
}

/// Result type for Webull API operations
pub type WebullResult<T> = Result<T, WebullError>;

} // verus!
