//! Classification of the backend's error answers.
use vstd::prelude::*;
use vstd::string::*;
use crate::text::{decimal, push_char, push_decimal};

verus! {

/// The fields of an RFC 7807 problem-details body that the messages use.
pub struct Rfc7807 {
    pub status: Option<u16>,
    pub title: Option<String>,
    pub detail: Option<String>,
}

/// How many characters of a raw error body a message keeps.
pub const MAX_RAW_ERROR_CHARS: usize = 500;

/// The first `n` characters of `s`, or all of `s` where it is shorter.
pub open spec fn char_prefix(s: Seq<char>, n: nat) -> Seq<char> {
    if s.len() <= n {
        s
    } else {
        s.take(n as int)
    }
}

/// The message for an error answer with HTTP status `status` and body
/// `body`, where `details` is the body read as problem details (`None` where
/// it is not such a body). With a title the message is `[code] title: detail`,
/// the body's own status winning over the HTTP one and a missing detail
/// left empty; else it is `[status] ` and the body's first characters.
pub open spec fn api_error_text(status: u16, body: Seq<char>, details: Option<Rfc7807>) -> Seq<char> {
    match details {
        Some(d) if d.title is Some => {
            let code = match d.status {
                Some(c) => c,
                None => status,
            };
            let detail = match d.detail {
                Some(t) => t@,
                None => Seq::empty(),
            };
            "["@ + decimal(code as nat) + "] "@ + d.title->0@ + ": "@ + detail
        },
        _ => "["@ + decimal(status as nat) + "] "@ + char_prefix(body, MAX_RAW_ERROR_CHARS as nat),
    }
}

/// The message for an error answer; `details` is `body` read as problem
/// details, or `None` where it does not read so.
pub fn format_api_error(status_code: u16, body: &str, details: Option<Rfc7807>) -> (r: String)
    ensures
        r@ == api_error_text(status_code, body@, details),
{
    let mut out = String::new();
    push_char(&mut out, '[');
    match details {
        Some(d) => {
            match d.title {
                Some(title) => {
                    let code = match d.status {
                        Some(c) => c,
                        None => status_code,
                    };
                    push_decimal(&mut out, code as u64);
                    out.append("] ");
                    out.append(title.as_str());
                    out.append(": ");
                    match d.detail {
                        Some(t) => out.append(t.as_str()),
                        None => {},
                    }
                    proof {
                        reveal_strlit("[");
                    }
                    assert(out@ =~= api_error_text(status_code, body@, details));
                    return out;
                },
                None => {},
            }
        },
        None => {},
    }
    push_decimal(&mut out, status_code as u64);
    out.append("] ");
    let n = body.unicode_len();
    let k = if n < MAX_RAW_ERROR_CHARS {
        n
    } else {
        MAX_RAW_ERROR_CHARS
    };
    out.append(body.substring_char(0, k));
    proof {
        reveal_strlit("[");
        assert(body@.subrange(0, k as int) =~= char_prefix(body@, MAX_RAW_ERROR_CHARS as nat));
    }
    assert(out@ =~= api_error_text(status_code, body@, details));
    out
}

} // verus!
