//! The errors of the client.

use vstd::prelude::*;

verus! {

/// An error of the HTTP transport.
#[verifier::external_type_specification]
#[verifier::external_body]
pub struct ExTransportError(reqwest::Error);

/// An error of the JSON decoder.
#[verifier::external_type_specification]
#[verifier::external_body]
pub struct ExJsonError(serde_json::Error);

/// Why an operation of the client failed.
#[derive(Debug)]
pub enum ClientError {
    /// The request could not be completed: the transport's own error.
    Http(reqwest::Error),
    /// The server answered with a status outside `200..=299`.
    Status(u16),
    /// There is no active session, or the server refused the credentials.
    Authorization,
    /// The response body is not JSON of the expected shape.
    Json(serde_json::Error),
    /// The login response carried no session cookie.
    MissingSessionCookie,
    /// An upload names neither a URL nor a torrent file.
    EmptyUpload,
}

impl ClientError {
    /// Whether the error comes from the transport: the request failed or the
    /// server answered with an error status.
    pub open spec fn is_transport(self) -> bool {
        self is Http || self is Status
    }

    /// Whether the error comes from a response that does not have the expected shape.
    pub open spec fn is_decode(self) -> bool {
        self is Json || self is MissingSessionCookie
    }
}

impl From<reqwest::Error> for ClientError {
    fn from(err: reqwest::Error) -> (r: ClientError)
        ensures
            r == ClientError::Http(err),
    {
        ClientError::Http(err)
    }
}

impl vstd::std_specs::convert::FromSpecImpl<reqwest::Error> for ClientError {
    open spec fn obeys_from_spec() -> bool {
        true
    }

    open spec fn from_spec(err: reqwest::Error) -> ClientError {
        ClientError::Http(err)
    }
}

impl From<serde_json::Error> for ClientError {
    fn from(err: serde_json::Error) -> (r: ClientError)
        ensures
            r == ClientError::Json(err),
    {
        ClientError::Json(err)
    }
}

impl vstd::std_specs::convert::FromSpecImpl<serde_json::Error> for ClientError {
    open spec fn obeys_from_spec() -> bool {
        true
    }

    open spec fn from_spec(err: serde_json::Error) -> ClientError {
        ClientError::Json(err)
    }
}

} // verus!
