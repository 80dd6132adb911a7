//! The failures a signing operation can end in.

use vstd::prelude::*;
use vstd::string::StringExecFns;

verus! {

/// What a notifier reports when it could not tell the user to act.
#[derive(Debug, PartialEq, Eq)]
pub struct NotifierError {
    pub message: String,
}

/// Every way in which a signing operation fails.
#[derive(Debug, PartialEq, Eq)]
pub enum SignError {
    /// The host does not give a URL origin.
    InvalidOrigin,
    /// The channel to the authenticator service closed without a result.
    CommunicationError,
    /// The device was missing, declined, not registered, or never touched.
    AuthenticationError,
    /// The operating system's assertion facility returned this error code.
    PlatformApiError(i32),
    /// The authenticator answered with fewer bytes than a signature header.
    MalformedSignaturePayload,
    /// A notifier failed, so the user was never told to act.
    NotifierFailed(NotifierError),
}

/// What an error tells the user.
pub open spec fn error_text(e: SignError) -> Seq<char> {
    match e {
        SignError::InvalidOrigin => "The relying party host is not a valid origin."@,
        SignError::CommunicationError => "Problem receiving, unable to continue"@,
        SignError::AuthenticationError =>
            "There was an issue authenticating your U2F device. Please ensure that it's set up on your account, plugged in, and that you activate it."@,
        SignError::PlatformApiError(_) => "The platform assertion API reported an error."@,
        SignError::MalformedSignaturePayload => "The authenticator returned a malformed signature payload."@,
        SignError::NotifierFailed(inner) => inner.message@,
    }
}

impl SignError {
    /// The message for the user.
    pub fn message(&self) -> (text: String)
        ensures
            text@ == error_text(*self),
    {
        match self {
            SignError::InvalidOrigin => String::from_str("The relying party host is not a valid origin."),
            SignError::CommunicationError => String::from_str("Problem receiving, unable to continue"),
            SignError::AuthenticationError => String::from_str(
                "There was an issue authenticating your U2F device. Please ensure that it's set up on your account, plugged in, and that you activate it.",
            ),
            SignError::PlatformApiError(_) => String::from_str("The platform assertion API reported an error."),
            SignError::MalformedSignaturePayload => String::from_str(
                "The authenticator returned a malformed signature payload.",
            ),
            SignError::NotifierFailed(inner) => inner.message.clone(),
        }
    }
}

} // verus!
