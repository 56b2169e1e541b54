//! The pipeline's failure taxonomy.
//!
//! Every component fails fast: the first error is surfaced unchanged, never
//! retried or swallowed. Each variant names the single condition that raises
//! it.

use vstd::prelude::*;

verus! {

/// Everything that can go wrong in one pipeline run.
#[derive(Debug, Clone, Copy, PartialEq, Eq, Structural)]
pub enum ShipItError {
    /// No repository exists at the given path.
    RepositoryNotFound,
    /// A branch name did not resolve to a local branch.
    BranchNotFound,
    /// The resolved target branch points at no commit (unborn branch).
    DanglingReference,
    /// A commit met during the history walk could not be dereferenced,
    /// or a walked commit carries no message.
    HistoryWalkFailed,
    /// The summarization endpoint could not be reached.
    SummarizationTransportError,
    /// The summarization endpoint answered with an unexpected shape.
    SummarizationParseError,
    /// The operator-supplied identifier does not fit the selected platform.
    InvalidIdentifierFormat,
    /// Neither platform credential is configured.
    NoPlatformConfigured,
    /// The platform answered without the created request's URL.
    PlatformAPIError,
    /// The settings handed to the pipeline are unusable.
    ConfigurationError,
}

/// The fixed line of text each failure carries.
pub open spec fn message_spec(e: ShipItError) -> Seq<char> {
    match e {
        ShipItError::RepositoryNotFound => "Failed to find a git repository at the given path!"@,
        ShipItError::BranchNotFound => "Failed to resolve a branch name to a local branch!"@,
        ShipItError::DanglingReference => "Failed to find a valid commit for the target branch!"@,
        ShipItError::HistoryWalkFailed => "Failed to walk the history of the source branch!"@,
        ShipItError::SummarizationTransportError => "The HTTP request to the summarizer failed!"@,
        ShipItError::SummarizationParseError => "Failed to parse the summarizer response!"@,
        ShipItError::InvalidIdentifierFormat => "The project identifier has an invalid format!"@,
        ShipItError::NoPlatformConfigured => "No platform token is configured. Set a token in the shipit config."@,
        ShipItError::PlatformAPIError => "Failed to get the request URL from the platform response!"@,
        ShipItError::ConfigurationError => "Failed to load a usable shipit configuration!"@,
    }
}

impl ShipItError {
    /// A human-readable account of the failure, one fixed line per variant.
    pub fn message(&self) -> (r: String)
        ensures
            r@ == message_spec(*self),
    {
        match self {
            ShipItError::RepositoryNotFound => String::from_str(
                "Failed to find a git repository at the given path!",
            ),
            ShipItError::BranchNotFound => String::from_str(
                "Failed to resolve a branch name to a local branch!",
            ),
            ShipItError::DanglingReference => String::from_str(
                "Failed to find a valid commit for the target branch!",
            ),
            ShipItError::HistoryWalkFailed => String::from_str(
                "Failed to walk the history of the source branch!",
            ),
            ShipItError::SummarizationTransportError => String::from_str(
                "The HTTP request to the summarizer failed!",
            ),
            ShipItError::SummarizationParseError => String::from_str(
                "Failed to parse the summarizer response!",
            ),
            ShipItError::InvalidIdentifierFormat => String::from_str(
                "The project identifier has an invalid format!",
            ),
            ShipItError::NoPlatformConfigured => String::from_str(
                "No platform token is configured. Set a token in the shipit config.",
            ),
            ShipItError::PlatformAPIError => String::from_str(
                "Failed to get the request URL from the platform response!",
            ),
            ShipItError::ConfigurationError => String::from_str(
                "Failed to load a usable shipit configuration!",
            ),
        }
    }
}

} // verus!
