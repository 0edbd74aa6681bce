//! Turning the completion service's reply into a recommendation.

use vstd::prelude::*;
use crate::error::{ExtractionFault, RecommendationError};
use crate::json::{decode, decoded, field, lookup, Json};

verus! {

/// The first entry of the reply's `choices` array, where there is one.
pub open spec fn first_choice(reply: Json) -> Option<Json> {
    match field(reply, "choices"@) {
        Some(Json::Array(items)) => if items@.len() > 0 {
            Some(items@[0])
        } else {
            None
        },
        _ => None,
    }
}

/// The string at `message.content` of a choice, where there is one.
pub open spec fn content_of(choice: Json) -> Option<Seq<char>> {
    match field(choice, "message"@) {
        Some(message) => match field(message, "content"@) {
            Some(Json::Str(s)) => Some(s@),
            _ => None,
        },
        None => None,
    }
}

/// The recommendation that a decoded reply holds, or why it holds none.
pub open spec fn extraction(reply: Json) -> Result<Seq<char>, ExtractionFault> {
    match first_choice(reply) {
        None => Err(ExtractionFault::NoChoices),
        Some(choice) => match content_of(choice) {
            Some(s) => Ok(s),
            None => Err(ExtractionFault::MissingContent),
        },
    }
}

/// The member `key` of `v`, where `v` is an object that has one.
fn get_field<'a>(v: &'a Json, key: &str) -> (r: Option<&'a Json>)
    ensures
        match r {
            Some(x) => field(*v, key@) == Some(*x),
            None => field(*v, key@) is None,
        },
{
    match v {
        Json::Object(fields) => lookup(fields, key),
        _ => None,
    }
}

/// Reads the recommendation at `choices[0].message.content` of a decoded
/// reply, unchanged.
pub fn extract_recommendation(reply: &Json) -> (r: Result<String, RecommendationError>)
    ensures
        match extraction(*reply) {
            Ok(s) => r matches Ok(t) && t@ == s,
            Err(f) => r matches Err(RecommendationError::Extraction(g)) && g == f,
        },
{
    let first = match get_field(reply, "choices") {
        Some(Json::Array(items)) => if items.len() > 0 {
            &items[0]
        } else {
            return Err(RecommendationError::Extraction(ExtractionFault::NoChoices));
        },
        _ => return Err(RecommendationError::Extraction(ExtractionFault::NoChoices)),
    };
    let content = match get_field(first, "message") {
        Some(message) => get_field(message, "content"),
        None => None,
    };
    match content {
        Some(Json::Str(s)) => Ok(s.clone()),
        _ => Err(RecommendationError::Extraction(ExtractionFault::MissingContent)),
    }
}

/// Decodes a reply body and reads the recommendation from it.
pub fn recommendation_from_body(body: &str) -> (r: Result<String, RecommendationError>)
    ensures
        match decoded(body@) {
            None => r matches Err(RecommendationError::Decode(_)),
            Some(reply) => match extraction(reply) {
                Ok(s) => r matches Ok(t) && t@ == s,
                Err(f) => r matches Err(RecommendationError::Extraction(g)) && g == f,
            },
        },
{
    match decode(body) {
        Ok(reply) => extract_recommendation(&reply),
        Err(cause) => Err(RecommendationError::Decode(cause)),
    }
}

/// Reads the recommendation from what the transport handed back: the reply
/// body, or the cause of a failure to reach the completion service.
pub fn recommendation_from_reply(reply: Result<String, String>) -> (r: Result<String, RecommendationError>)
    ensures
        match reply {
            Err(cause) => r matches Err(RecommendationError::Transport(c)) && c@ == cause@,
            Ok(body) => match decoded(body@) {
                None => r matches Err(RecommendationError::Decode(_)),
                Some(reply) => match extraction(reply) {
                    Ok(s) => r matches Ok(t) && t@ == s,
                    Err(f) => r matches Err(RecommendationError::Extraction(g)) && g == f,
                },
            },
        },
{
    match reply {
        Ok(body) => recommendation_from_body(body.as_str()),
        Err(cause) => Err(RecommendationError::Transport(cause)),
    }
}

} // verus!
