//! Failures of the upstream catalog.

use vstd::prelude::*;
use vstd::string::StringExecFns;
use crate::model::kind::Kind;

verus! {

/// Why the catalog turned a request down although the transport worked.
#[derive(Clone, Copy, Debug, PartialEq, Eq, Structural)]
pub enum Rejection {
    /// The response carried this status, which is outside 2xx.
    Status(u16),
    /// The response's `success` flag was false.
    SuccessFlag,
}

/// A failed exchange with the catalog.
#[derive(Clone, Copy, Debug, PartialEq, Eq, Structural)]
pub enum UpstreamError {
    /// No response, or no complete body, arrived: network failure or timeout.
    TransportError(Kind),
    /// The catalog answered and refused.
    UpstreamRejected(Kind, Rejection),
    /// The body does not have the shape of a catalog response.
    MalformedResponse(Kind),
}

impl UpstreamError {
    /// The kind of image the failed exchange was about.
    pub open spec fn spec_kind(self) -> Kind {
        match self {
            UpstreamError::TransportError(kind) => kind,
            UpstreamError::UpstreamRejected(kind, _) => kind,
            UpstreamError::MalformedResponse(kind) => kind,
        }
    }

    /// The kind of image the failed exchange was about.
    pub fn kind(&self) -> (kind: Kind)
        ensures
            kind == self.spec_kind(),
    {
        match self {
            UpstreamError::TransportError(kind) => *kind,
            UpstreamError::UpstreamRejected(kind, _) => *kind,
            UpstreamError::MalformedResponse(kind) => *kind,
        }
    }

    /// The text of the error, which names the kind it is about.
    pub open spec fn spec_message(self) -> Seq<char> {
        match self {
            UpstreamError::TransportError(Kind::Logo) => "Failed to reach the catalog for logos"@,
            UpstreamError::TransportError(Kind::Hero) => "Failed to reach the catalog for heroes"@,
            UpstreamError::UpstreamRejected(Kind::Logo, Rejection::Status(_)) => "Failed to fetch logo"@,
            UpstreamError::UpstreamRejected(Kind::Hero, Rejection::Status(_)) => "Failed to fetch heroes"@,
            UpstreamError::UpstreamRejected(Kind::Logo, Rejection::SuccessFlag) =>
                "steamgriddb API returned success=false for logos"@,
            UpstreamError::UpstreamRejected(Kind::Hero, Rejection::SuccessFlag) =>
                "steamgriddb API returned success=false for heroes"@,
            UpstreamError::MalformedResponse(Kind::Logo) => "Malformed catalog response for logos"@,
            UpstreamError::MalformedResponse(Kind::Hero) => "Malformed catalog response for heroes"@,
        }
    }

    /// The text of the error.
    pub fn message(&self) -> (text: String)
        ensures
            text@ == self.spec_message(),
    {
        let text = match self {
            UpstreamError::TransportError(Kind::Logo) => "Failed to reach the catalog for logos",
            UpstreamError::TransportError(Kind::Hero) => "Failed to reach the catalog for heroes",
            UpstreamError::UpstreamRejected(Kind::Logo, Rejection::Status(_)) => "Failed to fetch logo",
            UpstreamError::UpstreamRejected(Kind::Hero, Rejection::Status(_)) => "Failed to fetch heroes",
            UpstreamError::UpstreamRejected(Kind::Logo, Rejection::SuccessFlag) =>
                "steamgriddb API returned success=false for logos",
            UpstreamError::UpstreamRejected(Kind::Hero, Rejection::SuccessFlag) =>
                "steamgriddb API returned success=false for heroes",
            UpstreamError::MalformedResponse(Kind::Logo) => "Malformed catalog response for logos",
            UpstreamError::MalformedResponse(Kind::Hero) => "Malformed catalog response for heroes",
        };
        String::from_str(text)
    }
}

} // verus!
