//! What the transport hands over, and the rules it applies while reading.
use vstd::prelude::*;
use vstd::string::*;
use crate::text::chars_of;

verus! {

/// A response as read off the wire: status, body (lossily decoded, at most
/// `MAX_BODY_BYTES` bytes read) and whether its content type is JSON.
pub struct RawResponse {
    pub status: u16,
    pub body: String,
    pub is_json: bool,
}

/// The most bytes of a response body that are read; the rest is dropped.
pub const MAX_BODY_BYTES: usize = 1048576;

/// How much of the next chunk of a body to keep, and whether reading stops
/// after it.
pub struct ChunkStep {
    pub take: usize,
    pub done: bool,
}

/// What to keep of a chunk of `chunk_len` bytes when `buffered` bytes are
/// kept already: as much as fits under `MAX_BODY_BYTES`; reading stops once
/// the cap is reached.
pub fn next_chunk(buffered: usize, chunk_len: usize) -> (r: ChunkStep)
    ensures
        buffered >= MAX_BODY_BYTES ==> r.take == 0 && r.done,
        buffered < MAX_BODY_BYTES ==> {
            &&& r.take as int == if chunk_len < MAX_BODY_BYTES - buffered {
                chunk_len as int
            } else {
                MAX_BODY_BYTES - buffered
            }
            &&& r.done == (buffered + r.take >= MAX_BODY_BYTES)
        },
{
    if buffered >= MAX_BODY_BYTES {
        return ChunkStep { take: 0, done: true };
    }
    let room = MAX_BODY_BYTES - buffered;
    let take = if chunk_len < room {
        chunk_len
    } else {
        room
    };
    ChunkStep { take, done: take == room }
}

/// `c` in lower case where it is an ASCII capital.
pub open spec fn ascii_lower(c: char) -> char {
    if 'A' <= c && c <= 'Z' {
        ((c as u8) + 32) as char
    } else {
        c
    }
}

/// `s` starts with `prefix`, ASCII letters compared without case (`prefix` in
/// lower case).
pub open spec fn starts_with_ci(s: Seq<char>, prefix: Seq<char>) -> bool {
    prefix.len() <= s.len() && forall|j: int|
        0 <= j < prefix.len() ==> #[trigger] ascii_lower(s[j]) == prefix[j]
}

/// A content type that marks a JSON body.
pub open spec fn is_json_type(ct: Seq<char>) -> bool {
    starts_with_ci(ct, "application/json"@) || starts_with_ci(ct, "application/problem+json"@)
}

fn lower_char(c: char) -> (r: char)
    ensures
        r == ascii_lower(c),
{
    if 'A' <= c && c <= 'Z' {
        ((c as u8) + 32) as char
    } else {
        c
    }
}

fn starts_with_lower(s: &Vec<char>, prefix: &str) -> (r: bool)
    ensures
        r == starts_with_ci(s@, prefix@),
{
    let n = prefix.unicode_len();
    if n > s.len() {
        return false;
    }
    let mut j: usize = 0;
    while j < n
        invariant
            j <= n == prefix@.len() <= s@.len(),
            forall|k: int| 0 <= k < j ==> #[trigger] ascii_lower(s@[k]) == prefix@[k],
        decreases n - j,
    {
        if lower_char(s[j]) != prefix.get_char(j) {
            return false;
        }
        j = j + 1;
    }
    true
}

/// Whether a content type marks a JSON body: it starts, without regard to
/// ASCII case, with `application/json` or `application/problem+json`.
pub fn is_json_content_type(ct: &str) -> (r: bool)
    ensures
        r == is_json_type(ct@),
{
    let v = chars_of(ct);
    starts_with_lower(&v, "application/json") || starts_with_lower(&v, "application/problem+json")
}

} // verus!
