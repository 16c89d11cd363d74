//! The response resolver, second part: what the body of a response tells
//! when its head did not settle where the media is.

use crate::catalog::MediaKind;
use crate::envelope::{extract_image_url_from_json, image_url_in, video_url_from_json, video_url_in};
use crate::error::FetchError;
use crate::json::{json_document, parse_json, JsonValue};
use crate::resolve::{
    head_outcome, joined_location, resolve_head, url_path, Resolution, ResolutionView,
    ResponseHead,
};
use crate::text::{
    chars_of, has_prefix, result_text, same_text, starts_with, trim_text, trimmed,
};
use vstd::prelude::*;
use vstd::string::*;

verus! {

/// The part of a body that is looked at: all of it for a video, the body
/// without surrounding whitespace for an image.
pub open spec fn body_text(kind: MediaKind, body: Seq<char>) -> Seq<char> {
    match kind {
        MediaKind::Video => body,
        MediaKind::Image => trimmed(body),
    }
}

/// The text opens a JSON object.
pub open spec fn opens_object(text: Seq<char>) -> bool {
    starts_with(text, "{"@)
}

/// The text is an address by itself.
pub open spec fn is_plain_address(text: Seq<char>) -> bool {
    starts_with(text, "http://"@) || starts_with(text, "https://"@)
}

/// What a JSON body yields, given the document that it parsed to: the
/// address in the envelope of a video, the address found in an image body.
pub open spec fn json_outcome(kind: MediaKind, document: Option<JsonValue>) -> Result<
    Seq<char>,
    FetchError,
> {
    match document {
        None => Err(FetchError::MalformedBody),
        Some(value) => match kind {
            MediaKind::Video => video_url_in(value),
            MediaKind::Image => match image_url_in(value) {
                Some(url) => Ok(url),
                None => Err(FetchError::NoUrlInResponse),
            },
        },
    }
}

/// What the body of a response settles, given `document`, what its text
/// parsed to as JSON. The first rule that applies decides:
/// a body that opens a JSON object yields what the document holds;
/// an image body that is an address is the result;
/// a response that came from another address than was asked makes that
/// address the result;
/// otherwise the format is unknown.
pub open spec fn body_outcome(
    kind: MediaKind,
    request_url: Seq<char>,
    head: ResponseHead,
    body: Seq<char>,
    document: Option<JsonValue>,
) -> Result<Seq<char>, FetchError> {
    let text = body_text(kind, body);
    if opens_object(text) {
        json_outcome(kind, document)
    } else if kind == MediaKind::Image && is_plain_address(text) {
        Ok(text)
    } else if head.url@ != request_url {
        Ok(head.url@)
    } else {
        Err(FetchError::UnknownResponseFormat(head.status))
    }
}

/// What a JSON body yields, given the document that it parsed to.
pub fn resolve_document(kind: MediaKind, document: &Option<JsonValue>) -> (url: Result<
    String,
    FetchError,
>)
    ensures
        result_text(url) == json_outcome(kind, *document),
{
    match document {
        None => Err(FetchError::MalformedBody),
        Some(value) => match kind {
            MediaKind::Video => video_url_from_json(value),
            MediaKind::Image => match extract_image_url_from_json(value) {
                Some(url) => Ok(url),
                None => Err(FetchError::NoUrlInResponse),
            },
        },
    }
}

/// Judges a response by its body, for a response whose head left the matter
/// open. `request_url` is the address that was asked.
pub fn resolve_body(kind: MediaKind, request_url: &str, head: &ResponseHead, body: &str) -> (url:
    Result<String, FetchError>)
    ensures
        result_text(url) == body_outcome(
            kind,
            request_url@,
            *head,
            body@,
            json_document(body_text(kind, body@)),
        ),
{
    let text = match kind {
        MediaKind::Video => String::from_str(body),
        MediaKind::Image => trim_text(body),
    };
    let chars = chars_of(text.as_str());
    if has_prefix(&chars, &chars_of("{")) {
        let document = parse_json(text.as_str());
        return resolve_document(kind, &document);
    }
    let plain = match kind {
        MediaKind::Video => false,
        MediaKind::Image => has_prefix(&chars, &chars_of("http://")) || has_prefix(
            &chars,
            &chars_of("https://"),
        ),
    };
    if plain {
        Ok(text)
    } else if !same_text(head.url.as_str(), request_url) {
        Ok(head.url.clone())
    } else {
        Err(FetchError::UnknownResponseFormat(head.status))
    }
}

/// What a response settles, head and body together.
pub open spec fn response_outcome(
    kind: MediaKind,
    request_url: Seq<char>,
    head: ResponseHead,
    body: Seq<char>,
) -> Result<Seq<char>, FetchError> {
    match head_outcome(kind, head, joined_location(head), url_path(head.url@)) {
        ResolutionView::Resolved(url) => Ok(url),
        ResolutionView::Failed(error) => Err(error),
        ResolutionView::NeedsBody => body_outcome(
            kind,
            request_url,
            head,
            body,
            json_document(body_text(kind, body)),
        ),
    }
}

/// Resolves a response whose body is at hand: by its head where that
/// settles the matter, by its body otherwise.
pub fn resolve(kind: MediaKind, request_url: &str, head: &ResponseHead, body: &str) -> (url:
    Result<String, FetchError>)
    ensures
        result_text(url) == response_outcome(kind, request_url@, *head, body@),
{
    match resolve_head(kind, head) {
        Resolution::Resolved(url) => Ok(url),
        Resolution::Failed(error) => Err(error),
        Resolution::NeedsBody => resolve_body(kind, request_url, head, body),
    }
}

} // verus!
