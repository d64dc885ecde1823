//! The speech provider: what is asked of it, and what its reply means.
//!
//! One call is made: a POST with a bearer credential and a JSON body that
//! holds the whole text under `input`. The reply's body holds the address of
//! the audio under `audio_url`.

use vstd::prelude::*;
use crate::error::{text_outcome, ErrorKind};
use crate::json::{
    json_object_text, json_parsed, parse, read_text_member, render_object, text_member, Json,
};

verus! {

/// The address of the call.
pub const SYNTHESIS_URL: &'static str = "https://api.openai.com/v1/audio/create";

/// The media type of the call's body.
pub const BODY_TYPE: &'static str = "application/json";

/// The member of the call's body that holds the text.
pub const INPUT_KEY: &'static str = "input";

/// The member of the reply's body that holds the address of the audio.
pub const AUDIO_URL_KEY: &'static str = "audio_url";

/// The body that asks for `text` to be spoken: a JSON object with the text
/// under `input`.
pub open spec fn synthesis_body_text(text: Seq<char>) -> Option<Seq<char>> {
    json_object_text(INPUT_KEY@, text)
}

/// Writes the body that asks for `text` to be spoken, whole and in one piece.
pub fn synthesis_body(text: &str) -> (body: Option<String>)
    ensures
        body.deep_view() == synthesis_body_text(text@),
{
    match render_object(INPUT_KEY, text) {
        Ok(body) => Some(body),
        Err(_) => None,
    }
}

/// The address of the audio in a decoded body: the string under `audio_url`.
pub open spec fn audio_location_in(document: Option<Json>) -> Option<Seq<char>> {
    match document {
        Some(document) => text_member(document, AUDIO_URL_KEY@),
        None => None,
    }
}

/// Decodes the body of the provider's reply.
pub fn decode_audio_location(body: &str) -> (location: Option<String>)
    ensures
        location.deep_view() == audio_location_in(json_parsed(body@)),
{
    match parse(body) {
        Ok(document) => read_text_member(&document, AUDIO_URL_KEY),
        Err(_) => None,
    }
}

/// What the provider's reply comes to, given the address decoded from its
/// body: a reply without one is invalid, whatever the reason.
pub open spec fn synthesis(location: Option<Seq<char>>) -> Result<Seq<char>, ErrorKind> {
    match location {
        Some(location) => Ok(location),
        None => Err(ErrorKind::ProviderResponseInvalid),
    }
}

/// Judges the provider's reply.
pub fn synthesized(location: Option<String>) -> (outcome: Result<String, ErrorKind>)
    ensures
        text_outcome(outcome) == synthesis(location.deep_view()),
{
    match location {
        Some(location) => Ok(location),
        None => Err(ErrorKind::ProviderResponseInvalid),
    }
}

} // verus!
