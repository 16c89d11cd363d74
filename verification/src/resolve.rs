//! The response resolver: from the response of an endpoint to the address of
//! the media it stands for.
//!
//! The caller performs the request and hands over what came back. The head of
//! the response is judged first; the body is only asked for when the head
//! does not settle the matter.

use crate::catalog::MediaKind;
use crate::error::FetchError;
use crate::text::{
    chars_of, contains_text, has_lowered_prefix, has_substring, option_text, starts_with_lowered,
    trim_text, trimmed,
};
use vstd::prelude::*;
use vstd::string::*;

verus! {

// ---------------------------------------------------------------------------
// Addresses
// ---------------------------------------------------------------------------

#[verifier::external_type_specification]
#[verifier::external_body]
pub struct ExAddress(reqwest::Url);

/// What `Url::parse` makes of `text`: the parsed address, or `None` where it
/// reports an error.
pub uninterp spec fn url_parsed(text: Seq<char>) -> Option<reqwest::Url>;

/// The serialization of what `Url::join` makes of `location` relative to
/// `base`, or `None` where it reports an error.
pub uninterp spec fn url_joined_to(base: reqwest::Url, location: Seq<char>) -> Option<Seq<char>>;

/// What `Url::path` gives for `url`.
pub uninterp spec fn url_path_in(url: reqwest::Url) -> Seq<char>;

/// The address that `location` denotes relative to the address `base`;
/// `None` where `base` is no address or `location` cannot be resolved
/// against it.
pub open spec fn url_joined(base: Seq<char>, location: Seq<char>) -> Option<Seq<char>> {
    match url_parsed(base) {
        Some(parsed) => url_joined_to(parsed, location),
        None => None,
    }
}

/// The path of the address `url`; `None` where `url` is no address.
pub open spec fn url_path(url: Seq<char>) -> Option<Seq<char>> {
    match url_parsed(url) {
        Some(parsed) => Some(url_path_in(parsed)),
        None => None,
    }
}

/// `Url::parse` of the `url` crate, as `reqwest` hands it on. The contract
/// only names the result.
#[verifier::external_body]
fn parse_url(text: &str) -> (parsed: Option<reqwest::Url>)
    ensures
        parsed == url_parsed(text@),
{
    reqwest::Url::parse(text).ok()
}

/// `Url::join`, with the result turned into its serialization. The contract
/// only names the result.
#[verifier::external_body]
fn join_url(base: &reqwest::Url, location: &str) -> (joined: Option<String>)
    ensures
        option_text(joined) == url_joined_to(*base, location@),
{
    match base.join(location) {
        Ok(target) => Some(String::from(target)),
        Err(_) => None,
    }
}

/// `Url::path`, copied into a string. The contract only names the result.
#[verifier::external_body]
fn path_of_url(url: &reqwest::Url) -> (path: String)
    ensures
        path@ == url_path_in(*url),
{
    url.path().to_string()
}

/// Where a redirection leads, given its `Location` and what joining the
/// trimmed `Location` to the address of the response gave: nowhere if the
/// `Location` is blank or could not be resolved, else the joined address.
pub open spec fn redirect_target(location: Seq<char>, joined: Option<Seq<char>>) -> Option<
    Seq<char>,
> {
    if trimmed(location).len() == 0 {
        None
    } else {
        joined
    }
}

/// Where a redirection leads, given its trimmed `Location` and the result of
/// joining it to the address of the response.
pub fn choose_redirect_target(location: &str, joined: Option<String>) -> (target: Option<String>)
    ensures
        option_text(target) == (if location@.len() == 0 {
            None
        } else {
            option_text(joined)
        }),
{
    if location.unicode_len() == 0 {
        None
    } else {
        joined
    }
}

/// Resolves the `Location` of a redirection against `base`, the address of
/// the response that carried it. There is no target where the `Location` is
/// blank, where `base` is no address, or where the `Location` cannot be
/// resolved against `base`.
pub fn resolve_redirect_location(base: &str, location: &str) -> (target: Option<String>)
    ensures
        option_text(target) == redirect_target(
            location@,
            url_joined(base@, trimmed(location@)),
        ),
{
    let location = trim_text(location);
    if location.as_str().unicode_len() == 0 {
        return None;
    }
    let joined = match parse_url(base) {
        Some(parsed) => join_url(&parsed, location.as_str()),
        None => None,
    };
    choose_redirect_target(location.as_str(), joined)
}

// ---------------------------------------------------------------------------
// The head of a response
// ---------------------------------------------------------------------------

/// What the resolver reads of a response before its body.
#[derive(Debug)]
pub struct ResponseHead {
    /// The status code.
    pub status: u16,
    /// The address that the response came from, after any redirections that
    /// the client followed by itself.
    pub url: String,
    /// The `Location` header, if there is one.
    pub location: Option<String>,
    /// The `Content-Type` header, if there is one that is readable text.
    pub content_type: Option<String>,
}

/// What the resolver makes of a response.
#[derive(Debug)]
pub enum Resolution {
    /// The media is at this address.
    Resolved(String),
    /// The response is of no use.
    Failed(FetchError),
    /// The body has to be read to tell.
    NeedsBody,
}

/// A [`Resolution`] as mathematical values.
pub enum ResolutionView {
    Resolved(Seq<char>),
    Failed(FetchError),
    NeedsBody,
}

impl View for Resolution {
    type V = ResolutionView;

    open spec fn view(&self) -> ResolutionView {
        match self {
            Resolution::Resolved(url) => ResolutionView::Resolved(url@),
            Resolution::Failed(error) => ResolutionView::Failed(*error),
            Resolution::NeedsBody => ResolutionView::NeedsBody,
        }
    }
}

/// A status from 300 to 399.
pub open spec fn is_redirection(status: u16) -> bool {
    300 <= status < 400
}

/// The content type of `head`, empty where it has none.
pub open spec fn content_type_of(head: ResponseHead) -> Seq<char> {
    match head.content_type {
        Some(t) => t@,
        None => Seq::empty(),
    }
}

/// The content type says that the response is itself the media: it begins,
/// whatever the case of its ASCII letters, with `video/` for a video, with
/// `image/` for an image, or with `application/octet-stream`.
pub open spec fn is_direct_media(kind: MediaKind, content_type: Seq<char>) -> bool {
    ||| starts_with_lowered(
        content_type,
        match kind {
            MediaKind::Video => "video/"@,
            MediaKind::Image => "image/"@,
        },
    )
    ||| starts_with_lowered(content_type, "application/octet-stream"@)
}

/// The path names a media file: it holds `.mp4`, `.webm` or `.m3u8` for a
/// video; `.jpg`, `.jpeg`, `.png`, `.webp`, `.gif` or `.bmp` for an image.
pub open spec fn has_media_extension(kind: MediaKind, path: Seq<char>) -> bool {
    match kind {
        MediaKind::Video => {
            ||| contains_text(path, ".mp4"@)
            ||| contains_text(path, ".webm"@)
            ||| contains_text(path, ".m3u8"@)
        },
        MediaKind::Image => {
            ||| contains_text(path, ".jpg"@)
            ||| contains_text(path, ".jpeg"@)
            ||| contains_text(path, ".png"@)
            ||| contains_text(path, ".webp"@)
            ||| contains_text(path, ".gif"@)
            ||| contains_text(path, ".bmp"@)
        },
    }
}

/// What the head of a response settles, given `joined`, the `Location`
/// resolved against the address of the response, and `path`, the path of
/// that address. The first rule that applies decides:
/// a redirection leads to its target, or fails without one;
/// a media content type makes the address of the response the result;
/// so does a media extension in its path;
/// otherwise the body is needed.
pub open spec fn head_outcome(
    kind: MediaKind,
    head: ResponseHead,
    joined: Option<Seq<char>>,
    path: Option<Seq<char>>,
) -> ResolutionView {
    if is_redirection(head.status) {
        match head.location {
            Some(location) => match redirect_target(location@, joined) {
                Some(target) => ResolutionView::Resolved(target),
                None => ResolutionView::Failed(FetchError::MissingRedirectTarget),
            },
            None => ResolutionView::Failed(FetchError::MissingRedirectTarget),
        }
    } else if is_direct_media(kind, content_type_of(head)) {
        ResolutionView::Resolved(head.url@)
    } else if path is Some && has_media_extension(kind, path->0) {
        ResolutionView::Resolved(head.url@)
    } else {
        ResolutionView::NeedsBody
    }
}

/// The `Location` of `head` resolved against its address.
pub open spec fn joined_location(head: ResponseHead) -> Option<Seq<char>> {
    match head.location {
        Some(location) => url_joined(head.url@, trimmed(location@)),
        None => None,
    }
}

/// Whether `content_type` says that the response is itself the media.
pub fn check_direct_media(kind: MediaKind, content_type: &str) -> (direct: bool)
    ensures
        direct == is_direct_media(kind, content_type@),
{
    let text = chars_of(content_type);
    let prefix = match kind {
        MediaKind::Video => chars_of("video/"),
        MediaKind::Image => chars_of("image/"),
    };
    let stream = chars_of("application/octet-stream");
    has_lowered_prefix(&text, &prefix) || has_lowered_prefix(&text, &stream)
}

/// Whether `path` names a media file of the given kind.
pub fn check_media_extension(kind: MediaKind, path: &str) -> (found: bool)
    ensures
        found == has_media_extension(kind, path@),
{
    let text = chars_of(path);
    match kind {
        MediaKind::Video => {
            has_substring(&text, &chars_of(".mp4")) || has_substring(&text, &chars_of(".webm"))
                || has_substring(&text, &chars_of(".m3u8"))
        },
        MediaKind::Image => {
            has_substring(&text, &chars_of(".jpg")) || has_substring(&text, &chars_of(".jpeg"))
                || has_substring(&text, &chars_of(".png")) || has_substring(
                &text,
                &chars_of(".webp"),
            ) || has_substring(&text, &chars_of(".gif")) || has_substring(
                &text,
                &chars_of(".bmp"),
            )
        },
    }
}

/// Judges a response by its head.
pub fn resolve_head(kind: MediaKind, head: &ResponseHead) -> (resolution: Resolution)
    ensures
        resolution@ == head_outcome(kind, *head, joined_location(*head), url_path(head.url@)),
{
    if 300 <= head.status && head.status < 400 {
        let target = match &head.location {
            Some(location) => resolve_redirect_location(head.url.as_str(), location.as_str()),
            None => None,
        };
        return match target {
            Some(url) => Resolution::Resolved(url),
            None => Resolution::Failed(FetchError::MissingRedirectTarget),
        };
    }
    let direct = match &head.content_type {
        Some(content_type) => check_direct_media(kind, content_type.as_str()),
        None => {
            proof {
                reveal_strlit("");
                assert(""@ =~= Seq::<char>::empty());
            }
            check_direct_media(kind, "")
        },
    };
    if direct {
        return Resolution::Resolved(head.url.clone());
    }
    let named = match parse_url(head.url.as_str()) {
        Some(parsed) => check_media_extension(kind, path_of_url(&parsed).as_str()),
        None => false,
    };
    if named {
        Resolution::Resolved(head.url.clone())
    } else {
        Resolution::NeedsBody
    }
}

} // verus!
