//! Byte ranges as a client asks for them in a `Range` header.

use crate::decimal::{
    decimal_string, decimal_text, decimal_value, parse_usize, parse_usize_spec, unsigned_digits,
};
use crate::text::{chars_of, has_prefix, starts_with};
use vstd::prelude::*;
use vstd::string::*;

verus! {

/// Index of the first `-` of `s` at or after `i`, or the length of `s`.
pub open spec fn field_end(s: Seq<char>, i: int) -> int
    decreases s.len() - i,
{
    if 0 <= i < s.len() && s[i] != '-' {
        field_end(s, i + 1)
    } else {
        i
    }
}

/// The text of the first position of a range: what stands before the first
/// `-`.
pub open spec fn start_text(range: Seq<char>) -> Seq<char> {
    range.subrange(0, field_end(range, 0))
}

/// The text of the last position of a range: what stands behind the first
/// `-`, if there is one.
pub open spec fn end_text(range: Seq<char>) -> Option<Seq<char>> {
    let dash = field_end(range, 0);
    if dash < range.len() {
        Some(range.skip(dash + 1))
    } else {
        None
    }
}

/// The index of the last byte of a resource of `total_len` bytes, 0 for an
/// empty one.
pub open spec fn last_index(total_len: usize) -> usize {
    if total_len == 0 {
        0
    } else {
        (total_len - 1) as usize
    }
}

/// The last position that a range asks for: the last byte of the resource
/// where the range has no `-` or nothing behind it, else the number that
/// stands behind the `-`. There is none where what stands there is no
/// number.
pub open spec fn requested_end(range: Seq<char>, total_len: usize) -> Option<usize> {
    match end_text(range) {
        Some(text) => if text.len() == 0 {
            Some(last_index(total_len))
        } else {
            parse_usize_spec(text)
        },
        None => Some(last_index(total_len)),
    }
}

/// The byte range that the header value `header` asks of a resource of
/// `total_len` bytes, as first and last index.
///
/// There is one only if the header has the form `bytes=start`,
/// `bytes=start-` or `bytes=start-end` with numbers for `start` and `end`,
/// and the first index is not after the last, which lies inside the
/// resource.
pub open spec fn range_of(header: Seq<char>, total_len: usize) -> Option<(usize, usize)> {
    if !starts_with(header, "bytes="@) {
        None
    } else {
        let range = header.skip("bytes="@.len() as int);
        match (parse_usize_spec(start_text(range)), requested_end(range, total_len)) {
            (Some(start), Some(end)) => if start <= end && end < total_len {
                Some((start, end))
            } else {
                None
            },
            _ => None,
        }
    }
}

/// Index of the first `-` of `s` at or after `from`, or the length of `s`.
fn find_field_end(s: &Vec<char>, base: usize, from: usize) -> (end: usize)
    requires
        base <= from <= s.len(),
    ensures
        from <= end <= s.len(),
        end - base == field_end(s@.skip(base as int), from - base),
{
    let ghost range = s@.skip(base as int);
    let mut i: usize = from;
    while i < s.len() && s[i] != '-'
        invariant
            from <= i <= s.len(),
            base <= from,
            range == s@.skip(base as int),
            field_end(range, i - base) == field_end(range, from - base),
        decreases s.len() - i,
    {
        assert(range[i - base] == s@[i as int]);
        i += 1;
    }
    proof {
        if i < s.len() {
            assert(range[i - base] == s@[i as int]);
        }
    }
    i
}

/// Reads the value of a `Range` header for a resource of `total_len` bytes.
pub fn parse_range(header: &str, total_len: usize) -> (range: Option<(usize, usize)>)
    ensures
        range == range_of(header@, total_len),
{
    let chars = chars_of(header);
    let prefix = chars_of("bytes=");
    if !has_prefix(&chars, &prefix) {
        return None;
    }
    let base: usize = prefix.len();
    let ghost rest = chars@.skip(base as int);
    let dash: usize = find_field_end(&chars, base, base);
    assert(rest.subrange(0, dash - base) =~= chars@.subrange(base as int, dash as int));
    let start = match parse_usize(&chars, base, dash) {
        Some(start) => start,
        None => {
            return None;
        },
    };
    let last: usize = total_len.saturating_sub(1);
    let end: usize = if dash < chars.len() && dash + 1 < chars.len() {
        assert(rest.skip(dash + 1 - base) =~= chars@.subrange(dash + 1, chars.len() as int));
        match parse_usize(&chars, dash + 1, chars.len()) {
            Some(end) => end,
            None => {
                return None;
            },
        }
    } else {
        last
    };
    if start <= end && end < total_len {
        Some((start, end))
    } else {
        None
    }
}

/// The value of the `Content-Range` header for the bytes from `start` to
/// `end` of a resource of `total_len` bytes.
pub open spec fn content_range_text(start: usize, end: usize, total_len: usize) -> Seq<char> {
    "bytes "@ + decimal_text(start as nat) + "-"@ + decimal_text(end as nat) + "/"@ + decimal_text(
        total_len as nat,
    )
}

/// The value of the `Content-Range` header for the bytes from `start` to
/// `end` of a resource of `total_len` bytes.
pub fn content_range(start: usize, end: usize, total_len: usize) -> (text: String)
    ensures
        text@ == content_range_text(start, end, total_len),
{
    let mut text = String::from_str("bytes ");
    text.append(decimal_string(start as u128).as_str());
    text.append("-");
    text.append(decimal_string(end as u128).as_str());
    text.append("/");
    text.append(decimal_string(total_len as u128).as_str());
    text
}

// ---------------------------------------------------------------------------
// Laws
// ---------------------------------------------------------------------------

/// What stands behind `bytes=` in a header value that begins with it.
pub open spec fn range_part(header: Seq<char>) -> Seq<char> {
    header.skip("bytes="@.len() as int)
}

/// The header value is no well-formed range for a resource of `total_len`
/// bytes: it does not begin with `bytes=`, or no number follows, or what
/// stands behind the `-` is neither empty nor a number, or the first index
/// is after the last, or the last is not inside the resource.
pub open spec fn is_malformed_range(header: Seq<char>, total_len: usize) -> bool {
    ||| !starts_with(header, "bytes="@)
    ||| parse_usize_spec(start_text(range_part(header))) is None
    ||| requested_end(range_part(header), total_len) is None
    ||| parse_usize_spec(start_text(range_part(header)))->0 > requested_end(
        range_part(header),
        total_len,
    )->0
    ||| requested_end(range_part(header), total_len)->0 >= total_len
}

/// A header value yields a range exactly when it is not malformed, and the
/// range that it yields lies inside the resource.
pub proof fn lemma_range_of_malformed(header: Seq<char>, total_len: usize)
    ensures
        is_malformed_range(header, total_len) <==> range_of(header, total_len) is None,
        range_of(header, total_len) matches Some(r) ==> r.0 <= r.1 < total_len,
{
}

/// For a resource that is not empty, the open range from the first byte is
/// the whole resource.
pub proof fn lemma_open_range_from_zero(total_len: usize)
    requires
        total_len > 0,
    ensures
        range_of("bytes=0-"@, total_len) == Some((0usize, (total_len - 1) as usize)),
{
    reveal_strlit("bytes=0-");
    reveal_strlit("bytes=");
    let header = "bytes=0-"@;
    let range = range_part(header);
    assert(header.subrange(0, 6) =~= "bytes="@);
    assert(range =~= seq!['0', '-']);
    assert(field_end(range, 0) == 1) by {
        reveal_with_fuel(field_end, 3);
    }
    let first = start_text(range);
    assert(first =~= seq!['0']);
    assert(unsigned_digits(first) == first);
    assert(decimal_value(first) == 0) by {
        assert(first.drop_last() =~= Seq::<char>::empty());
        reveal_with_fuel(decimal_value, 2);
    }
    assert(parse_usize_spec(first) == Some(0usize));
    let rest = range.skip(2);
    assert(end_text(range) == Some(rest));
    assert(rest.len() == 0);
    assert(requested_end(range, total_len) == Some((total_len - 1) as usize));
}

} // verus!
