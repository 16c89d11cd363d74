//! JSON bodies that carry the address of a media file.

use crate::error::FetchError;
use crate::json::{as_text, get, integer_value, text_at, JsonValue};
use crate::text::{option_text, result_text};
use vstd::prelude::*;
use vstd::string::*;

verus! {

// ---------------------------------------------------------------------------
// Images: an address under one of several keys
// ---------------------------------------------------------------------------

/// The keys under which an image body may hold the address directly.
pub open spec fn direct_keys() -> Seq<Seq<char>> {
    seq!["data"@, "imgurl"@, "url"@, "image"@, "pic"@]
}

/// The keys under which the `data` object of an image body may hold the
/// address.
pub open spec fn nested_keys() -> Seq<Seq<char>> {
    seq!["url"@, "imgurl"@, "image"@, "pic"@]
}

/// The string under the first of `keys`, from index `i` on, under which
/// `value` holds a string.
pub open spec fn first_text_from(value: JsonValue, keys: Seq<Seq<char>>, i: int) -> Option<
    Seq<char>,
>
    decreases keys.len() - i,
{
    if 0 <= i < keys.len() {
        match text_at(value, keys[i]) {
            Some(text) => Some(text),
            None => first_text_from(value, keys, i + 1),
        }
    } else {
        None
    }
}

/// The string under the first of `keys` under which `value` holds a string.
pub open spec fn first_text(value: JsonValue, keys: Seq<Seq<char>>) -> Option<Seq<char>> {
    first_text_from(value, keys, 0)
}

/// The address that an image body holds: the body itself if it is a string;
/// else the string under the first direct key that has one; else the string
/// under the first nested key of the `data` member that has one.
pub open spec fn image_url_in(value: JsonValue) -> Option<Seq<char>> {
    match as_text(value) {
        Some(text) => Some(text),
        None => match first_text(value, direct_keys()) {
            Some(text) => Some(text),
            None => match get(value, "data"@) {
                Some(data) => first_text(data, nested_keys()),
                None => None,
            },
        },
    }
}

/// The views of a list of keys.
pub open spec fn keys_view(keys: Seq<&'static str>) -> Seq<Seq<char>> {
    keys.map_values(|k: &'static str| k@)
}

fn first_text_of(value: &JsonValue, keys: &Vec<&'static str>) -> (text: Option<String>)
    ensures
        option_text(text) == first_text(*value, keys_view(keys@)),
{
    let mut i: usize = 0;
    while i < keys.len()
        invariant
            i <= keys.len(),
            first_text_from(*value, keys_view(keys@), i as int) == first_text(
                *value,
                keys_view(keys@),
            ),
        decreases keys.len() - i,
    {
        assert(keys_view(keys@)[i as int] == keys@[i as int]@);
        match value.text_at(keys[i]) {
            Some(text) => {
                return Some(text);
            },
            None => {},
        }
        i += 1;
    }
    None
}

/// The address that an image body holds, if it holds one.
pub fn extract_image_url_from_json(value: &JsonValue) -> (url: Option<String>)
    ensures
        option_text(url) == image_url_in(*value),
{
    match value.as_str() {
        Some(text) => {
            return Some(text.clone());
        },
        None => {},
    }
    let direct: Vec<&'static str> = vec!["data", "imgurl", "url", "image", "pic"];
    assert(keys_view(direct@) =~= direct_keys());
    match first_text_of(value, &direct) {
        Some(text) => {
            return Some(text);
        },
        None => {},
    }
    match value.get("data") {
        Some(data) => {
            let nested: Vec<&'static str> = vec!["url", "imgurl", "image", "pic"];
            assert(keys_view(nested@) =~= nested_keys());
            first_text_of(data, &nested)
        },
        None => None,
    }
}

// ---------------------------------------------------------------------------
// Videos: an envelope with a code and the address
// ---------------------------------------------------------------------------

/// The application code of an envelope that carries an address.
pub const ENVELOPE_OK: i64 = 200;

/// The `code` member of an envelope, where it is an integer.
pub open spec fn envelope_code(value: JsonValue) -> Option<int> {
    match get(value, "code"@) {
        Some(JsonValue::Number(number)) => integer_value(number),
        _ => None,
    }
}

/// What a video envelope yields. The code is judged first: a body without
/// an integer `code` is malformed; a code other than 200 is a failure of the
/// upstream service, whatever else the envelope holds; with the code 200 the
/// string `data` is the address, and a body without one is malformed.
pub open spec fn video_url_in(value: JsonValue) -> Result<Seq<char>, FetchError> {
    match envelope_code(value) {
        None => Err(FetchError::MalformedBody),
        Some(code) => if code != ENVELOPE_OK {
            Err(FetchError::UpstreamError)
        } else {
            match text_at(value, "data"@) {
                Some(data) => Ok(data),
                None => Err(FetchError::MalformedBody),
            }
        },
    }
}

/// Whether the code of an envelope is 200; `None` where it has no integer
/// code.
fn envelope_is_ok(value: &JsonValue) -> (ok: Option<bool>)
    ensures
        match ok {
            Some(b) => envelope_code(*value) is Some && b == (envelope_code(*value)->0
                == ENVELOPE_OK),
            None => envelope_code(*value) is None,
        },
{
    match value.get("code") {
        Some(JsonValue::Number(number)) => match number.signed {
            Some(n) => Some(n == ENVELOPE_OK),
            None => match number.unsigned {
                Some(n) => Some(n == 200),
                None => None,
            },
        },
        _ => None,
    }
}

/// The address that a video envelope yields.
pub fn video_url_from_json(value: &JsonValue) -> (url: Result<String, FetchError>)
    ensures
        result_text(url) == video_url_in(*value),
{
    match envelope_is_ok(value) {
        None => Err(FetchError::MalformedBody),
        Some(false) => Err(FetchError::UpstreamError),
        Some(true) => match value.text_at("data") {
            Some(data) => Ok(data),
            None => Err(FetchError::MalformedBody),
        },
    }
}

} // verus!
