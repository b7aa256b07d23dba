//! Failures of the update engine.
use vstd::prelude::*;

verus! {

/// Why a request to the release API did not yield a usable envelope.
#[derive(Debug)]
pub enum NetworkCause {
    /// The server answered with a status outside the success range.
    Status(u16),
    /// The request could not be sent or its answer could not be read.
    Transport(String),
    /// The answer did not decode into the expected shape.
    Decode(String),
}

/// Every failure the engine reports.
#[derive(Debug)]
pub enum UpdateError {
    /// Missing or invalid configuration (also an unusable auth token).
    Configuration(String),
    /// A transport, status or decoding failure for the request to `url`.
    Network { url: String, cause: NetworkCause },
    /// The API said there is no usable release.
    ReleaseNotFound(String),
    /// The apply-update step reported a failure.
    Apply(String),
    /// An event arrived that the current phase of an update does not expect.
    OutOfOrder,
}

/// The shape of a failure, without its diagnostic text.
#[derive(PartialEq, Eq, Structural, Clone, Copy, Debug)]
pub enum ErrorKind {
    Configuration,
    HttpStatus(u16),
    Transport,
    Decode,
    ReleaseNotFound,
    Apply,
    OutOfOrder,
}

impl UpdateError {
    pub open spec fn kind(&self) -> ErrorKind {
        match self {
            UpdateError::Configuration(_) => ErrorKind::Configuration,
            UpdateError::Network { cause, .. } => match cause {
                NetworkCause::Status(s) => ErrorKind::HttpStatus(*s),
                NetworkCause::Transport(_) => ErrorKind::Transport,
                NetworkCause::Decode(_) => ErrorKind::Decode,
            },
            UpdateError::ReleaseNotFound(_) => ErrorKind::ReleaseNotFound,
            UpdateError::Apply(_) => ErrorKind::Apply,
            UpdateError::OutOfOrder => ErrorKind::OutOfOrder,
        }
    }

    /// The shape of this failure.
    pub fn error_kind(&self) -> (r: ErrorKind)
        ensures
            r == self.kind(),
    {
        match self {
            UpdateError::Configuration(_) => ErrorKind::Configuration,
            UpdateError::Network { cause, .. } => match cause {
                NetworkCause::Status(s) => ErrorKind::HttpStatus(*s),
                NetworkCause::Transport(_) => ErrorKind::Transport,
                NetworkCause::Decode(_) => ErrorKind::Decode,
            },
            UpdateError::ReleaseNotFound(_) => ErrorKind::ReleaseNotFound,
            UpdateError::Apply(_) => ErrorKind::Apply,
            UpdateError::OutOfOrder => ErrorKind::OutOfOrder,
        }
    }

    /// A network failure, of any cause.
    pub fn is_network(&self) -> (r: bool)
        ensures
            r == (self is Network),
    {
        matches!(self, UpdateError::Network { .. })
    }
}

} // verus!
