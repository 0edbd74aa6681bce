//! The closed set of ways in which getting a recommendation can fail.

use vstd::prelude::*;

verus! {

/// Why a decoded reply holds no recommendation.
#[derive(Debug, Clone, Copy, PartialEq, Eq, Structural)]
pub enum ExtractionFault {
    /// `choices` is absent, not an array, or empty.
    NoChoices,
    /// The first choice has no string at `message.content`.
    MissingContent,
}

/// A failed request for a recommendation.
#[derive(Debug, Clone, PartialEq, Eq)]
pub enum RecommendationError {
    /// The API key was not configured.
    Configuration,
    /// The completion service could not be reached; carries the cause.
    Transport(String),
    /// The reply body is not JSON; carries the decoder's message.
    Decode(String),
    /// The reply is JSON but holds no recommendation.
    Extraction(ExtractionFault),
}

/// The human-readable message of an error.
pub open spec fn message_of(e: RecommendationError) -> Seq<char> {
    match e {
        RecommendationError::Configuration => "GROQ_API_KEY must be set"@,
        RecommendationError::Transport(cause) => "request to the completion service failed: "@ + cause@,
        RecommendationError::Decode(cause) => "reply is not valid JSON: "@ + cause@,
        RecommendationError::Extraction(ExtractionFault::NoChoices) => "No choices returned"@,
        RecommendationError::Extraction(ExtractionFault::MissingContent) => "Failed to parse recommendation"@,
    }
}

impl RecommendationError {
    /// The message handed to the caller of the query operation.
    pub fn message(&self) -> (r: String)
        ensures
            r@ == message_of(*self),
    {
        match self {
            RecommendationError::Configuration => String::from_str("GROQ_API_KEY must be set"),
            RecommendationError::Transport(cause) => {
                String::from_str("request to the completion service failed: ").concat(cause.as_str())
            },
            RecommendationError::Decode(cause) => {
                String::from_str("reply is not valid JSON: ").concat(cause.as_str())
            },
            RecommendationError::Extraction(ExtractionFault::NoChoices) => String::from_str("No choices returned"),
            RecommendationError::Extraction(ExtractionFault::MissingContent) => {
                String::from_str("Failed to parse recommendation")
            },
        }
    }
}

} // verus!
