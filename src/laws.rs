//! Properties that hold of the library's functions for all inputs.
use vstd::prelude::*;
use vstd::utf8::*;
use crate::convert::{
    description, floor_boundary, html_tag, is_html, no_description, occurs_in, truncated,
    truncation_marker, MAX_OUTPUT_BYTES, N_HTML_TAGS,
};
use crate::error::{api_error_text, char_prefix, Rfc7807, MAX_RAW_ERROR_CHARS};
use crate::text::{decimal, is_blank, lemma_trim_keeps_absent, trimmed};

verus! {

broadcast use group_utf8_lib;

/// A problem-details body with a title is shown as `[code] title: detail`,
/// where the code is the body's own status when it has one and the HTTP
/// status otherwise, and a missing detail is left empty.
pub proof fn lemma_titled_error(status: u16, body: Seq<char>, d: Rfc7807)
    requires
        d.title is Some,
    ensures
        api_error_text(status, body, Some(d)) == "["@ + decimal(
            (if d.status is Some { d.status->0 } else { status }) as nat,
        ) + "] "@ + d.title->0@ + ": "@ + (if d.detail is Some { d.detail->0@ } else { Seq::empty() }),
{
}

/// A body that is not problem details with a title is shown as `[status] `
/// and its first 500 characters (all of it where it is shorter), counted in
/// characters.
pub proof fn lemma_raw_error(status: u16, body: Seq<char>, details: Option<Rfc7807>)
    requires
        details is None || details->0.title is None,
    ensures
        api_error_text(status, body, details) == "["@ + decimal(status as nat) + "] "@ + char_prefix(
            body,
            MAX_RAW_ERROR_CHARS as nat,
        ),
        char_prefix(body, MAX_RAW_ERROR_CHARS as nat).len() == if body.len() < 500 {
            body.len()
        } else {
            500
        },
        char_prefix(body, MAX_RAW_ERROR_CHARS as nat) =~= body.take(
            char_prefix(body, MAX_RAW_ERROR_CHARS as nat).len() as int,
        ),
{
}

proof fn lemma_floor_boundary(b: Seq<u8>, i: int)
    requires
        valid_utf8(b),
        0 <= i,
    ensures
        0 <= floor_boundary(b, i) <= i,
        is_char_boundary(b, floor_boundary(b, i)),
    decreases i,
{
    if i > 0 && !is_char_boundary(b, i) {
        lemma_floor_boundary(b, i - 1);
    }
}

/// Truncation leaves a text that fits in `MAX_OUTPUT_BYTES` as it is; so
/// truncating such a text, truncated or not, changes nothing.
pub proof fn lemma_truncate_fitting(s: Seq<char>)
    requires
        encode_utf8(s).len() <= MAX_OUTPUT_BYTES,
    ensures
        truncated(s) == s,
        truncated(truncated(s)) == truncated(s),
{
}

/// Truncation never splits a character: what it keeps of a text that does
/// not fit is the decoding of a prefix of the text's UTF-8 bytes that ends
/// on a character boundary within the bound, and that prefix is exactly the
/// kept part's encoding.
pub proof fn lemma_truncate_cuts_on_boundary(s: Seq<char>)
    requires
        encode_utf8(s).len() > MAX_OUTPUT_BYTES,
    ensures
        exists|k: int|
            0 <= k <= MAX_OUTPUT_BYTES && is_char_boundary(encode_utf8(s), k) && #[trigger] truncated(s)
                == decode_utf8(encode_utf8(s).take(k)) + truncation_marker() && encode_utf8(
                decode_utf8(encode_utf8(s).take(k)),
            ) == encode_utf8(s).take(k),
{
    let b = encode_utf8(s);
    let k = floor_boundary(b, MAX_OUTPUT_BYTES as int);
    lemma_floor_boundary(b, MAX_OUTPUT_BYTES as int);
    valid_utf8_split(b, k);
    assert(b.subrange(0, k) == b.take(k));
    decode_utf8_encode_utf8(b.take(k));
}

/// A blank statement is rendered as the fixed text, whatever the converter
/// gave.
pub proof fn lemma_blank_description(content: Seq<char>, converted: Option<String>)
    requires
        is_blank(content),
    ensures
        description(content, converted) == no_description(),
{
}

/// A statement without `<` is passed through unchanged.
pub proof fn lemma_plain_description(content: Seq<char>, converted: Option<String>)
    requires
        !is_blank(content),
        !content.contains('<'),
    ensures
        description(content, converted) == content,
{
    lemma_trim_keeps_absent(content, '<');
}

/// A statement that reads as HTML is rendered as the converter's output
/// whenever that output is not blank.
pub proof fn lemma_converted_description(content: Seq<char>, md: String)
    requires
        !is_blank(content),
        is_html(content),
        !is_blank(md@),
    ensures
        description(content, Some(md)) == md@,
        md@.len() > 0,
{
    if md@.len() == 0 {
        assert(trimmed(md@) =~= md@);
    }
}

/// A statement in which no tag opener of `html_tag` occurs (only unknown
/// tags, say) is passed through unchanged.
pub proof fn lemma_unknown_tags_description(content: Seq<char>, converted: Option<String>)
    requires
        !is_blank(content),
        forall|k: int| 0 <= k < N_HTML_TAGS ==> !occurs_in(trimmed(content), #[trigger] html_tag(k)),
    ensures
        description(content, converted) == content,
{
}

} // verus!
