//! Downloading a media file: which request to make next, and when to stop.
//!
//! The caller performs each request and reports the head of the response
//! with [`Download::on_response`]; the answer says whether to follow a
//! redirection, to read the body, or to give up.

use crate::catalog::MediaKind;
use crate::error::FetchError;
use crate::resolve::{
    is_redirection, joined_location, redirect_target, resolve_redirect_location, ResponseHead,
};
use vstd::prelude::*;
use vstd::string::*;

verus! {

/// The number of redirections that a download follows at most.
pub const MAX_REDIRECTS: u32 = 5;

/// The largest video that is downloaded, in bytes.
pub const MAX_VIDEO_BYTES: u64 = 104857600;

/// The largest image that is downloaded, in bytes.
pub const MAX_IMAGE_BYTES: u64 = 15728640;

/// The largest payload of the given kind that is downloaded, in bytes.
pub open spec fn payload_limit(kind: MediaKind) -> u64 {
    match kind {
        MediaKind::Video => MAX_VIDEO_BYTES,
        MediaKind::Image => MAX_IMAGE_BYTES,
    }
}

/// The largest payload of the given kind that is downloaded, in bytes.
pub fn payload_limit_of(kind: MediaKind) -> (limit: u64)
    ensures
        limit == payload_limit(kind),
{
    match kind {
        MediaKind::Video => MAX_VIDEO_BYTES,
        MediaKind::Image => MAX_IMAGE_BYTES,
    }
}

/// A status from 200 to 299.
pub open spec fn is_success(status: u16) -> bool {
    200 <= status < 300
}

/// The length that a response declares, 0 where it declares none.
pub open spec fn declared_length(content_length: Option<u64>) -> u64 {
    match content_length {
        Some(n) => n,
        None => 0,
    }
}

/// What to do after a response.
#[derive(Debug)]
pub enum DownloadStep {
    /// Request this address next.
    Follow(String),
    /// Read the body of this response: it is the media.
    ReadBody,
    /// Give up.
    Failed(FetchError),
}

/// A [`DownloadStep`] as mathematical values.
pub enum DownloadStepView {
    Follow(Seq<char>),
    ReadBody,
    Failed(FetchError),
}

impl View for DownloadStep {
    type V = DownloadStepView;

    open spec fn view(&self) -> DownloadStepView {
        match self {
            DownloadStep::Follow(url) => DownloadStepView::Follow(url@),
            DownloadStep::ReadBody => DownloadStepView::ReadBody,
            DownloadStep::Failed(error) => DownloadStepView::Failed(*error),
        }
    }
}

/// What to do after the response `head`, which declares `content_length`,
/// when `redirects` redirections were followed before it and `joined` is its
/// `Location` resolved against its address. The first rule that applies
/// decides:
/// a redirection is followed to its target, unless five were followed
/// already or it has no target;
/// a status that is no success ends the download;
/// so does a declared length over the limit;
/// otherwise the body is read.
pub open spec fn download_step(
    kind: MediaKind,
    redirects: u32,
    head: ResponseHead,
    content_length: Option<u64>,
    joined: Option<Seq<char>>,
) -> DownloadStepView {
    if is_redirection(head.status) {
        if redirects >= MAX_REDIRECTS {
            DownloadStepView::Failed(FetchError::TooManyRedirects)
        } else {
            match head.location {
                Some(location) => match redirect_target(location@, joined) {
                    Some(target) => DownloadStepView::Follow(target),
                    None => DownloadStepView::Failed(FetchError::MissingRedirectTarget),
                },
                None => DownloadStepView::Failed(FetchError::MissingRedirectTarget),
            }
        }
    } else if !is_success(head.status) {
        DownloadStepView::Failed(FetchError::HttpStatus(head.status))
    } else if declared_length(content_length) > payload_limit(kind) {
        DownloadStepView::Failed(FetchError::PayloadTooLarge)
    } else {
        DownloadStepView::ReadBody
    }
}

/// A download in progress.
#[derive(Debug)]
pub struct Download {
    /// The kind of media that is downloaded.
    pub kind: MediaKind,
    /// The address to request.
    pub url: String,
    /// The number of redirections that were followed.
    pub redirects: u32,
}

impl Download {
    /// A download of the media of the given kind at `url`.
    pub fn new(kind: MediaKind, url: String) -> (download: Download)
        ensures
            download.kind == kind,
            download.url@ == url@,
            download.redirects == 0,
    {
        Download { kind, url, redirects: 0 }
    }

    /// Takes in the head of the response to the request for `self.url` and
    /// says what to do next. Where the answer is to follow a redirection,
    /// the download now stands at its target and counts one redirection
    /// more; otherwise it is unchanged.
    pub fn on_response(&mut self, head: &ResponseHead, content_length: Option<u64>) -> (step:
        DownloadStep)
        ensures
            step@ == download_step(
                old(self).kind,
                old(self).redirects,
                *head,
                content_length,
                joined_location(*head),
            ),
            final(self).kind == old(self).kind,
            match step {
                DownloadStep::Follow(target) => {
                    &&& final(self).url@ == target@
                    &&& final(self).redirects == old(self).redirects + 1
                    &&& final(self).redirects <= MAX_REDIRECTS
                },
                _ => {
                    &&& final(self).url@ == old(self).url@
                    &&& final(self).redirects == old(self).redirects
                },
            },
    {
        if 300 <= head.status && head.status < 400 {
            if self.redirects >= MAX_REDIRECTS {
                return DownloadStep::Failed(FetchError::TooManyRedirects);
            }
            let target = match &head.location {
                Some(location) => resolve_redirect_location(head.url.as_str(), location.as_str()),
                None => None,
            };
            return match target {
                Some(url) => {
                    self.url = url.clone();
                    self.redirects = self.redirects + 1;
                    DownloadStep::Follow(url)
                },
                None => DownloadStep::Failed(FetchError::MissingRedirectTarget),
            };
        }
        if !(200 <= head.status && head.status < 300) {
            return DownloadStep::Failed(FetchError::HttpStatus(head.status));
        }
        let declared: u64 = match content_length {
            Some(n) => n,
            None => 0,
        };
        if declared > payload_limit_of(self.kind) {
            DownloadStep::Failed(FetchError::PayloadTooLarge)
        } else {
            DownloadStep::ReadBody
        }
    }
}

/// Whether a payload of `received` bytes is within the limit for its kind.
pub fn check_payload(kind: MediaKind, received: usize) -> (checked: Result<(), FetchError>)
    ensures
        received <= payload_limit(kind) ==> checked is Ok,
        received > payload_limit(kind) ==> checked == Err::<(), FetchError>(
            FetchError::PayloadTooLarge,
        ),
{
    if received as u64 > payload_limit_of(kind) {
        Err(FetchError::PayloadTooLarge)
    } else {
        Ok(())
    }
}

} // verus!
