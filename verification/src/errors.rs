use vstd::prelude::*;

verus! {

/// Errors that can occur while authenticating with the service.
#[derive(Debug, Clone, PartialEq, Eq)]
pub enum AuthenticationError {
    /// The credentials provided were invalid.
    InvalidCredentials,
    /// The service presented an MFA challenge; an SMS code must be captured
    /// from the user and handed back through the challenge response.
    MfaCodeRequired,
    /// The OAuth endpoint could not be reached; the detail is the transport
    /// error's text.
    OAuthError(String),
    /// The response from the OAuth endpoint could not be decoded; the detail
    /// is the decoder's text.
    InvalidResponse(String),
    /// The service presented a challenge of a kind this crate does not
    /// support; the detail names the kind.
    UnsupportedChallenge(String),
    /// Registering the session with the service failed after the token
    /// exchange itself had succeeded.
    SessionFailed,
}

/// Errors that can occur while talking to the service's REST or WebSocket
/// endpoints.
#[derive(Debug, Clone, PartialEq, Eq)]
pub enum ApiError {
    /// A REST request failed in transport; the detail is the transport
    /// error's text.
    RequestError(String),
    /// A response could not be decoded; the detail is the text that was
    /// refused or the decoder's message.
    InvalidResponse(String),
    /// The WebSocket transport reported an error; the detail is its text.
    WebsocketError(String),
    /// Refreshing the authentication tokens failed.
    AuthenticationRefreshFailed(AuthenticationError),
    /// A send was attempted on a channel that has already been torn down.
    SinkAlreadyClosed,
}

} // verus!
