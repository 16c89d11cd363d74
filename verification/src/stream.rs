//! The range server: answers to requests for the bytes of a media stream.
//!
//! A request names a stream by its path. The item that is being played is
//! served from its buffer, whole or in part; any other request is passed on
//! to the address that was resolved last, and what comes back is relayed.

use crate::buffer::{buffer_len, buffer_slice, buffer_to_vec, bytes_view};
use crate::preload::{ItemView, PreloadedVideo};
use crate::decimal::decimal_text;
use crate::range::{
    content_range, content_range_text, is_malformed_range, lemma_open_range_from_zero,
    lemma_range_of_malformed, parse_range, range_of,
};
use crate::text::{chars_of, has_prefix, has_prefix_at, option_text, same_text, starts_with};
use vstd::prelude::*;
use vstd::string::*;

verus! {

// ---------------------------------------------------------------------------
// Responses
// ---------------------------------------------------------------------------

/// A response to a request for a stream.
#[derive(Debug)]
pub struct StreamResponse {
    /// The status code.
    pub status: u16,
    /// The `Content-Type` header, if it is sent.
    pub content_type: Option<String>,
    /// Whether `Accept-Ranges: bytes` is sent.
    pub accept_ranges: bool,
    /// The `Content-Length` header, if it is sent.
    pub content_length: Option<usize>,
    /// The `Content-Range` header, if it is sent.
    pub content_range: Option<String>,
    /// The body.
    pub body: Vec<u8>,
}

/// A [`StreamResponse`] as mathematical values.
pub struct StreamResponseView {
    pub status: u16,
    pub content_type: Option<Seq<char>>,
    pub accept_ranges: bool,
    pub content_length: Option<usize>,
    pub content_range: Option<Seq<char>>,
    pub body: Seq<u8>,
}

impl View for StreamResponse {
    type V = StreamResponseView;

    open spec fn view(&self) -> StreamResponseView {
        StreamResponseView {
            status: self.status,
            content_type: option_text(self.content_type),
            accept_ranges: self.accept_ranges,
            content_length: self.content_length,
            content_range: option_text(self.content_range),
            body: self.body@,
        }
    }
}

/// The response that sends all of `data`.
pub open spec fn full_response(data: Seq<u8>) -> StreamResponseView {
    StreamResponseView {
        status: 200,
        content_type: Some("video/mp4"@),
        accept_ranges: true,
        content_length: Some(data.len() as usize),
        content_range: None,
        body: data,
    }
}

/// The response that sends the bytes of `data` from index `start` to index
/// `end`, both included.
pub open spec fn partial_response(data: Seq<u8>, start: usize, end: usize) -> StreamResponseView {
    StreamResponseView {
        status: 206,
        content_type: Some("video/mp4"@),
        accept_ranges: true,
        content_length: Some((end - start + 1) as usize),
        content_range: Some(content_range_text(start, end, data.len() as usize)),
        body: data.subrange(start as int, end + 1),
    }
}

/// A response with a status and nothing else.
pub open spec fn bare_response(status: u16) -> StreamResponseView {
    StreamResponseView {
        status,
        content_type: None,
        accept_ranges: false,
        content_length: None,
        content_range: None,
        body: Seq::empty(),
    }
}

/// The response to a request for the buffer `data` with the `Range` header
/// `range`: the part that a well-formed range asks for, all of `data`
/// otherwise.
pub open spec fn buffer_response(data: Seq<u8>, range: Option<Seq<char>>) -> StreamResponseView {
    match range {
        Some(header) => match range_of(header, data.len() as usize) {
            Some((start, end)) => partial_response(data, start, end),
            None => full_response(data),
        },
        None => full_response(data),
    }
}

fn bare(status: u16) -> (response: StreamResponse)
    ensures
        response@ == bare_response(status),
{
    StreamResponse {
        status,
        content_type: None,
        accept_ranges: false,
        content_length: None,
        content_range: None,
        body: Vec::new(),
    }
}

/// Serves the buffer `data` to a request with the `Range` header `range`.
pub fn serve_buffer(data: &bytes::Bytes, range: Option<&str>) -> (response: StreamResponse)
    ensures
        response@ == buffer_response(
            bytes_view(*data),
            match range {
                Some(header) => Some(header@),
                None => None,
            },
        ),
{
    let total_len: usize = buffer_len(data);
    let wanted = match range {
        Some(header) => parse_range(header, total_len),
        None => None,
    };
    match wanted {
        Some((start, end)) => {
            let part = buffer_slice(data, start, end);
            StreamResponse {
                status: 206,
                content_type: Some(String::from_str("video/mp4")),
                accept_ranges: true,
                content_length: Some(buffer_len(&part)),
                content_range: Some(content_range(start, end, total_len)),
                body: buffer_to_vec(&part),
            }
        },
        None => StreamResponse {
            status: 200,
            content_type: Some(String::from_str("video/mp4")),
            accept_ranges: true,
            content_length: Some(total_len),
            content_range: None,
            body: buffer_to_vec(data),
        },
    }
}

// ---------------------------------------------------------------------------
// The stream that a request names
// ---------------------------------------------------------------------------

/// The identifier of the stream that a request names by the path and the
/// host of its address: what follows `/video/` in the path or, where the
/// host is `video`, what follows the leading `/` of the path.
pub open spec fn requested_id(path: Seq<char>, host: Seq<char>) -> Option<Seq<char>> {
    if starts_with(path, "/video/"@) {
        Some(path.skip("/video/"@.len() as int))
    } else if host == "video"@ && starts_with(path, "/"@) {
        Some(path.skip("/"@.len() as int))
    } else {
        None
    }
}

/// The request names the stream with the identifier `id`.
pub fn names_stream(path: &str, host: &str, id: &str) -> (named: bool)
    ensures
        named == (requested_id(path@, host@) == Some(id@)),
{
    let text = chars_of(path);
    let wanted = chars_of(id);
    let long = chars_of("/video/");
    let prefix = if has_prefix(&text, &long) {
        long
    } else if same_text(host, "video") && has_prefix(&text, &chars_of("/")) {
        chars_of("/")
    } else {
        return false;
    };
    let ghost rest = text@.skip(prefix.len() as int);
    assert(requested_id(path@, host@) == Some(rest));
    if text.len() - prefix.len() != wanted.len() {
        return false;
    }
    let found = has_prefix_at_end(&text, prefix.len(), &wanted);
    found
}

fn has_prefix_at_end(text: &Vec<char>, at: usize, wanted: &Vec<char>) -> (same: bool)
    requires
        at <= text.len(),
        text.len() - at == wanted.len(),
    ensures
        same == (text@.skip(at as int) == wanted@),
{
    let found = has_prefix_at(text, at, wanted);
    assert(text@.skip(at as int) =~= text@.subrange(at as int, at + wanted.len()));
    found
}

/// The response from the buffer of the item that is being played, for a
/// request that names it; `None` for any other request.
pub open spec fn local_response(
    playing: Option<ItemView>,
    path: Seq<char>,
    host: Seq<char>,
    range: Option<Seq<char>>,
) -> Option<StreamResponseView> {
    match playing {
        Some(item) => if requested_id(path, host) == Some(item.id) {
            Some(buffer_response(item.data, range))
        } else {
            None
        },
        None => None,
    }
}

/// The views of an optional response.
pub open spec fn option_response_view(response: Option<StreamResponse>) -> Option<
    StreamResponseView,
> {
    match response {
        Some(r) => Some(r@),
        None => None,
    }
}

/// Serves a request from the buffer of the item that is being played, if
/// the request names that item.
pub fn serve_playing(
    playing: Option<&PreloadedVideo>,
    path: &str,
    host: &str,
    range: Option<&str>,
) -> (response: Option<StreamResponse>)
    ensures
        option_response_view(response) == local_response(
            match playing {
                Some(item) => Some(item@),
                None => None,
            },
            path@,
            host@,
            match range {
                Some(header) => Some(header@),
                None => None,
            },
        ),
{
    match playing {
        Some(item) => {
            if names_stream(path, host, item.id.as_str()) {
                Some(serve_buffer(&item.data, range))
            } else {
                None
            }
        },
        None => None,
    }
}

// ---------------------------------------------------------------------------
// Passing a request on
// ---------------------------------------------------------------------------

/// The `Referer` that is sent with a request that is passed on.
pub open spec fn proxy_referer() -> Seq<char> {
    "https://api.tzjsy.cn/"@
}

/// A request that is passed on to the origin of a stream.
#[derive(Debug)]
pub struct ProxyRequest {
    /// The address to request.
    pub url: String,
    /// The `Referer` header to send.
    pub referer: String,
    /// The `Range` header to send, if any.
    pub range: Option<String>,
}

/// What the origin answered to a request that was passed on.
#[derive(Debug)]
pub struct UpstreamResponse {
    /// The status code.
    pub status: u16,
    /// The `Content-Type` header, if there is one that is readable text.
    pub content_type: Option<String>,
    /// The `Content-Range` header, if there is one that is readable text.
    pub content_range: Option<String>,
    /// The body.
    pub body: bytes::Bytes,
}

/// Plans how to pass a request on: to `current_url`, the address that was
/// resolved last, with the `Range` header of the request unchanged. Where no
/// address was resolved yet, the answer is the response 404.
pub fn plan_proxy(current_url: Option<&String>, range: Option<&str>) -> (plan: Result<
    ProxyRequest,
    StreamResponse,
>)
    ensures
        match plan {
            Ok(request) => {
                &&& current_url is Some
                &&& request.url@ == current_url->0@
                &&& request.referer@ == proxy_referer()
                &&& option_text(request.range) == match range {
                    Some(header) => Some(header@),
                    None => None,
                }
            },
            Err(response) => current_url is None && response@ == bare_response(404),
        },
{
    match current_url {
        Some(url) => Ok(
            ProxyRequest {
                url: url.clone(),
                referer: String::from_str("https://api.tzjsy.cn/"),
                range: match range {
                    Some(header) => Some(String::from_str(header)),
                    None => None,
                },
            },
        ),
        None => Err(bare(404)),
    }
}

/// The response that relays what the origin answered: its status, its
/// content type or `video/mp4` where it has none, its `Content-Range` if it
/// has one, and its body with the length of that body.
pub open spec fn relayed_response(upstream: UpstreamResponse) -> StreamResponseView {
    StreamResponseView {
        status: upstream.status,
        content_type: Some(
            match upstream.content_type {
                Some(t) => t@,
                None => "video/mp4"@,
            },
        ),
        accept_ranges: true,
        content_length: Some(bytes_view(upstream.body).len() as usize),
        content_range: option_text(upstream.content_range),
        body: bytes_view(upstream.body),
    }
}

/// Relays the answer of the origin; where the request to the origin failed,
/// `upstream` is `None` and the response is 500.
pub fn relay_upstream(upstream: Option<UpstreamResponse>) -> (response: StreamResponse)
    ensures
        response@ == match upstream {
            Some(answer) => relayed_response(answer),
            None => bare_response(500),
        },
{
    match upstream {
        Some(answer) => {
            let length: usize = buffer_len(&answer.body);
            let body = buffer_to_vec(&answer.body);
            StreamResponse {
                status: answer.status,
                content_type: Some(
                    match answer.content_type {
                        Some(t) => t,
                        None => String::from_str("video/mp4"),
                    },
                ),
                accept_ranges: true,
                content_length: Some(length),
                content_range: answer.content_range,
                body,
            }
        },
        None => bare(500),
    }
}

// ---------------------------------------------------------------------------
// Laws
// ---------------------------------------------------------------------------

/// A request with a malformed `Range` header is answered like one without:
/// with status 200 and the whole buffer.
pub proof fn lemma_malformed_range_gets_whole_buffer(data: Seq<u8>, header: Seq<char>)
    requires
        is_malformed_range(header, data.len() as usize),
    ensures
        buffer_response(data, Some(header)) == full_response(data),
        buffer_response(data, Some(header)) == buffer_response(data, None),
        buffer_response(data, Some(header)).status == 200,
        buffer_response(data, Some(header)).body == data,
{
    lemma_range_of_malformed(header, data.len() as usize);
}

/// A request with a well-formed `Range` header is answered with status 206
/// and exactly the bytes from the first to the last index of the range.
pub proof fn lemma_range_gets_its_bytes(data: Seq<u8>, header: Seq<char>)
    requires
        data.len() <= usize::MAX,
        !is_malformed_range(header, data.len() as usize),
    ensures
        range_of(header, data.len() as usize) matches Some(r) && {
            let response = buffer_response(data, Some(header));
            &&& response.status == 206
            &&& response.body.len() == r.1 - r.0 + 1
            &&& response.content_length == Some((r.1 - r.0 + 1) as usize)
            &&& response.content_range == Some(content_range_text(r.0, r.1, data.len() as usize))
            &&& forall|i: int| 0 <= i < response.body.len() ==> response.body[i] == data[r.0 + i]
        },
{
    lemma_range_of_malformed(header, data.len() as usize);
}

/// For a buffer of `n > 0` bytes, the request `Range: bytes=0-` is answered
/// with status 206, all `n` bytes and `Content-Range: bytes 0-(n-1)/n`.
pub proof fn lemma_open_range_gets_whole_buffer(data: Seq<u8>)
    requires
        0 < data.len() <= usize::MAX,
    ensures
        ({
            let response = buffer_response(data, Some("bytes=0-"@));
            &&& response.status == 206
            &&& response.body == data
            &&& response.content_length == Some(data.len() as usize)
            &&& response.content_range == Some(
                "bytes 0-"@ + decimal_text((data.len() - 1) as nat) + "/"@ + decimal_text(
                    data.len(),
                ),
            )
        }),
{
    let n = data.len() as usize;
    lemma_open_range_from_zero(n);
    let response = buffer_response(data, Some("bytes=0-"@));
    assert(response == partial_response(data, 0, (n - 1) as usize));
    assert(data.subrange(0, n as int) =~= data);
    reveal_strlit("bytes 0-");
    reveal_strlit("bytes ");
    reveal_strlit("-");
    assert(decimal_text(0) =~= seq!['0']);
    assert("bytes "@ + decimal_text(0) + "-"@ =~= "bytes 0-"@);
}

} // verus!
