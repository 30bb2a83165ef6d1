//! Why a code exchange failed.

use vstd::prelude::*;
use vstd::string::*;
use awc::error::{JsonPayloadError, SendRequestError};
use crate::oauth::model::Provider;
use crate::text::join;

verus! {

/// `awc::error::SendRequestError`: the transport's account of a request that
/// it could not complete. It is carried as it came; nothing in it is read.
#[verifier::external_type_specification]
#[verifier::external_body]
pub struct ExSendRequestError(SendRequestError);

/// `awc::error::JsonPayloadError`: the transport's account of a body that it
/// could not read as JSON. It is carried as it came; nothing in it is read.
#[verifier::external_type_specification]
#[verifier::external_body]
pub struct ExJsonPayloadError(JsonPayloadError);

/// The ways in which a code exchange ends without a credential.
#[derive(Debug)]
pub enum CodeExhangeError {
    /// A failure of no other kind.
    UnknownError,
    /// A required parameter, named here, was missing.
    ParamError(&'static str),
    /// The request could not be sent or was not answered.
    SendRequestError(SendRequestError),
    /// The answer was not the provider's token envelope.
    DecodingError(JsonPayloadError),
    /// No exchange is known for the provider.
    UnsupportedProvider(Provider),
}

impl CodeExhangeError {
    /// The text that describes the failure. For the two failures that the
    /// transport reports, the text is the one that the transport's own
    /// `Display` writes for its account.
    pub fn to_string(&self) -> (s: String)
        ensures
            match *self {
                CodeExhangeError::UnknownError => s@ == "Unknown error"@,
                CodeExhangeError::ParamError(key) => s@ == "URL param error: "@ + key@
                    + " key is not found in info"@,
                CodeExhangeError::UnsupportedProvider(provider) => s@ == provider.name(),
                CodeExhangeError::SendRequestError(cause) => to_string_from_display_ensures::<
                    SendRequestError,
                >(&cause, s),
                CodeExhangeError::DecodingError(cause) => to_string_from_display_ensures::<
                    JsonPayloadError,
                >(&cause, s),
            },
    {
        match self {
            CodeExhangeError::UnknownError => String::from_str("Unknown error"),
            CodeExhangeError::ParamError(key) => {
                let s = join(String::from_str("URL param error: "), key);
                join(s, " key is not found in info")
            },
            CodeExhangeError::SendRequestError(cause) => cause.to_string(),
            CodeExhangeError::DecodingError(cause) => cause.to_string(),
            CodeExhangeError::UnsupportedProvider(provider) => provider.to_string(),
        }
    }
}

} // verus!
