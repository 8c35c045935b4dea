//! The request rules of each tool: checking and normalising its parameters
//! into the backend path, and deciding what a response ends in.
use vstd::prelude::*;
use vstd::string::*;
use crate::client::RawResponse;
use crate::convert::{
    content_text, description, format_problem, format_similar, format_status, page, problem_page,
    similar_head, similar_rows, status_head, status_rows, truncate_output, truncated,
};
use crate::error::{api_error_text, format_api_error, Rfc7807};
use crate::models::{DailyFetching, Problem, SimilarResponse, StatusResponse};
use crate::text::{
    decimal, or_empty, push_decimal, text_result, trim_option, trim_owned, trimmed,
    url_encode, url_encoded,
};

verus! {

/// What a tool call ends in.
pub enum ToolOutcome {
    /// Markdown for the caller.
    Success(String),
    /// The request was refused, locally or by the backend; the text says why.
    DomainError(String),
    /// The contract with the backend was broken; reported as a call failure.
    ProtocolFault(String),
}

/// Parameters of a lookup by source and ID.
pub struct GetProblemParams {
    pub source: String,
    pub id: String,
}

/// Parameters of a lookup by URL, slug or prefixed ID.
pub struct ResolveParams {
    pub query: String,
}

/// The LeetCode site that a daily challenge is asked of.
#[derive(PartialEq, Eq, Structural, Clone, Copy, Debug)]
pub enum Domain {
    Com,
    Cn,
}

impl Default for Domain {
    fn default() -> (r: Domain)
        ensures
            r == Domain::Com,
    {
        Domain::Com
    }
}

/// The name that the backend knows a domain by.
pub open spec fn domain_text(d: Domain) -> Seq<char> {
    match d {
        Domain::Com => "com"@,
        Domain::Cn => "cn"@,
    }
}

impl Domain {
    /// The name that the backend knows this domain by.
    pub fn as_str(&self) -> (r: &'static str)
        ensures
            r@ == domain_text(*self),
    {
        match self {
            Domain::Com => "com",
            Domain::Cn => "cn",
        }
    }
}

/// Parameters of the daily challenge: the domain (`com` when absent) and a
/// date written `YYYY-MM-DD` (today when absent).
pub struct DailyParams {
    pub domain: Option<Domain>,
    pub date: Option<String>,
}

/// A similarity threshold as the caller gave it: its decimal writing, and
/// whether it lies within `[0, 1]`.
pub struct Threshold {
    pub text: String,
    pub in_range: bool,
}

/// Parameters of a similarity search: a text query, or else a source and an
/// ID; how many results (1 to 50, 10 when absent); the least similarity
/// (0 when absent); and a comma-separated platform filter.
pub struct SimilarParams {
    pub source: Option<String>,
    pub id: Option<String>,
    pub query: Option<String>,
    pub limit: Option<u32>,
    pub threshold: Option<Threshold>,
    pub source_filter: Option<String>,
}

/// The request path of a lookup by source and ID, or the refusal.
pub open spec fn problem_request(p: GetProblemParams) -> Result<Seq<char>, Seq<char>> {
    let source = trimmed(p.source@);
    let id = trimmed(p.id@);
    if source.len() == 0 || id.len() == 0 {
        Err("source and id must be non-empty"@)
    } else {
        Ok("/api/v1/problems/"@ + url_encoded(source) + "/"@ + url_encoded(id))
    }
}

/// The request path of a lookup by source and ID: both trimmed, neither
/// empty, both percent-encoded.
pub fn problem_path(params: &GetProblemParams) -> (r: Result<String, String>)
    ensures
        text_result(r) == problem_request(*params),
{
    let source = trim_owned(params.source.as_str());
    let id = trim_owned(params.id.as_str());
    if source.as_str().unicode_len() == 0 || id.as_str().unicode_len() == 0 {
        return Err("source and id must be non-empty".to_owned());
    }
    let mut path = "/api/v1/problems/".to_owned();
    path.append(url_encode(source.as_str()).as_str());
    path.append("/");
    path.append(url_encode(id.as_str()).as_str());
    Ok(path)
}

/// The request path of a lookup by URL, slug or prefixed ID.
pub open spec fn resolve_request(p: ResolveParams) -> Seq<char> {
    "/api/v1/resolve/"@ + url_encoded(p.query@)
}

/// The request path of a lookup by URL, slug or prefixed ID, the query
/// percent-encoded as it is.
pub fn resolve_path(params: &ResolveParams) -> (r: String)
    ensures
        r@ == resolve_request(*params),
{
    let mut path = "/api/v1/resolve/".to_owned();
    path.append(url_encode(params.query.as_str()).as_str());
    path
}

/// Whether chrono reads `s` as a date in the format `%Y-%m-%d`.
pub uninterp spec fn is_date_text(s: Seq<char>) -> bool;

/// Relies on chrono::NaiveDate::parse_from_str with `%Y-%m-%d`: whether it
/// reads `s` as a date depends on `s` alone.
#[verifier::external_body]
fn parses_as_date(s: &str) -> (r: bool)
    ensures
        r == is_date_text(s@),
{
    chrono::NaiveDate::parse_from_str(s, "%Y-%m-%d").is_ok()
}

/// Relies on chrono::Utc::now: today's date in UTC, written `YYYY-MM-DD`.
#[verifier::external_body]
fn today_utc() -> (r: String) {
    chrono::Utc::now().date_naive().format("%Y-%m-%d").to_string()
}

/// The domain that a daily challenge is asked of.
pub open spec fn daily_domain(p: DailyParams) -> Domain {
    match p.domain {
        Some(d) => d,
        None => Domain::Com,
    }
}

/// The daily-challenge path for a domain and a date.
pub open spec fn daily_path_text(d: Domain, date: Seq<char>) -> Seq<char> {
    "/api/v1/daily?domain="@ + domain_text(d) + "&date="@ + date
}

/// The request path of the daily challenge when today is `today`, or the
/// refusal of a date that does not read as `YYYY-MM-DD`.
pub open spec fn daily_request(p: DailyParams, today: Seq<char>) -> Result<Seq<char>, Seq<char>> {
    match p.date {
        Some(d) => if is_date_text(d@) {
            Ok(daily_path_text(daily_domain(p), d@))
        } else {
            Err("invalid date format, expected YYYY-MM-DD"@)
        },
        None => Ok(daily_path_text(daily_domain(p), today)),
    }
}

/// The request path of the daily challenge, with `today` standing for an
/// absent date.
pub fn daily_path_on(params: &DailyParams, today: &str) -> (r: Result<String, String>)
    ensures
        text_result(r) == daily_request(*params, today@),
{
    let domain = match params.domain {
        Some(d) => d,
        None => Domain::default(),
    };
    let date: &str = match &params.date {
        Some(d) => {
            if !parses_as_date(d.as_str()) {
                return Err("invalid date format, expected YYYY-MM-DD".to_owned());
            }
            d.as_str()
        },
        None => today,
    };
    let mut path = "/api/v1/daily?domain=".to_owned();
    path.append(domain.as_str());
    path.append("&date=");
    path.append(date);
    Ok(path)
}

/// The request path of the daily challenge; an absent date is today's in
/// UTC.
pub fn daily_path(params: &DailyParams) -> (r: Result<String, String>)
    ensures
        params.date is Some ==> text_result(r) == daily_request(*params, Seq::empty()),
        params.date is None ==> r is Ok && exists|today: Seq<char>|
            r->Ok_0@ == daily_path_text(daily_domain(*params), today),
{
    match &params.date {
        Some(_) => {
            proof {
                reveal_strlit("");
            }
            daily_path_on(params, "")
        },
        None => {
            let today = today_utc();
            daily_path_on(params, today.as_str())
        },
    }
}

/// The query string shared by both kinds of similarity search.
pub open spec fn similar_query_string(p: SimilarParams, limit: u32) -> Seq<char> {
    let threshold = match p.threshold {
        Some(t) => t.text@,
        None => "0"@,
    };
    let filter = match p.source_filter {
        Some(f) => "&source="@ + url_encoded(f@),
        None => Seq::empty(),
    };
    "limit="@ + decimal(limit as nat) + "&threshold="@ + threshold + filter
}

/// The request path of a similarity search, or the refusal. The limit is
/// checked first, then the threshold; a query that is not blank wins over a
/// source and ID.
pub open spec fn similar_request(p: SimilarParams) -> Result<Seq<char>, Seq<char>> {
    let limit: u32 = match p.limit {
        Some(l) => l,
        None => 10,
    };
    let query = trimmed(or_empty(p.query));
    let source = trimmed(or_empty(p.source));
    let id = trimmed(or_empty(p.id));
    let qs = similar_query_string(p, limit);
    if limit < 1 || limit > 50 {
        Err("limit must be between 1 and 50"@)
    } else if p.threshold is Some && !p.threshold->0.in_range {
        Err("threshold must be between 0.0 and 1.0"@)
    } else if query.len() > 0 {
        if query.len() < 3 || query.len() > 2000 {
            Err("query must be between 3 and 2000 characters"@)
        } else {
            Ok("/api/v1/similar?q="@ + url_encoded(query) + "&"@ + qs)
        }
    } else if source.len() == 0 || id.len() == 0 {
        Err("either 'query' or both 'source' and 'id' must be provided"@)
    } else {
        Ok("/api/v1/similar/"@ + url_encoded(source) + "/"@ + url_encoded(id) + "?"@ + qs)
    }
}

/// The request path of a similarity search, or the refusal of its
/// parameters.
pub fn similar_path(params: &SimilarParams) -> (r: Result<String, String>)
    ensures
        text_result(r) == similar_request(*params),
{
    let limit: u32 = match params.limit {
        Some(l) => l,
        None => 10,
    };
    if limit < 1 || limit > 50 {
        return Err("limit must be between 1 and 50".to_owned());
    }
    let mut qs = "limit=".to_owned();
    push_decimal(&mut qs, limit as u64);
    qs.append("&threshold=");
    match &params.threshold {
        Some(t) => {
            if !t.in_range {
                return Err("threshold must be between 0.0 and 1.0".to_owned());
            }
            qs.append(t.text.as_str());
        },
        None => qs.append("0"),
    }
    match &params.source_filter {
        Some(f) => {
            qs.append("&source=");
            qs.append(url_encode(f.as_str()).as_str());
        },
        None => {},
    }
    assert(qs@ =~= similar_query_string(*params, limit));
    let query = trim_option(&params.query);
    let n = query.as_str().unicode_len();
    if n > 0 {
        if n < 3 || n > 2000 {
            return Err("query must be between 3 and 2000 characters".to_owned());
        }
        let mut path = "/api/v1/similar?q=".to_owned();
        path.append(url_encode(query.as_str()).as_str());
        path.append("&");
        path.append(qs.as_str());
        return Ok(path);
    }
    let source = trim_option(&params.source);
    let id = trim_option(&params.id);
    if source.as_str().unicode_len() == 0 || id.as_str().unicode_len() == 0 {
        return Err("either 'query' or both 'source' and 'id' must be provided".to_owned());
    }
    let mut path = "/api/v1/similar/".to_owned();
    path.append(url_encode(source.as_str()).as_str());
    path.append("/");
    path.append(url_encode(id.as_str()).as_str());
    path.append("?");
    path.append(qs.as_str());
    Ok(path)
}

/// What is to be done with a response.
#[derive(PartialEq, Eq, Structural, Clone, Copy, Debug)]
pub enum Disposition {
    /// The daily challenge is still being fetched.
    InProgress,
    /// The backend reported an error: classify it.
    ApiError,
    /// Success, but not JSON.
    NotJson,
    /// Success: parse the body.
    Parse,
}

/// What is to be done with a response of status `status`; only the daily
/// challenge treats 202 as work in progress.
pub open spec fn disposition_of(status: u16, is_json: bool, daily: bool) -> Disposition {
    if daily && status == 202 {
        Disposition::InProgress
    } else if status != 200 {
        Disposition::ApiError
    } else if !is_json {
        Disposition::NotJson
    } else {
        Disposition::Parse
    }
}

/// What is to be done with `resp`; `daily` is set for the daily challenge,
/// whose 202 means the problem is still being fetched.
pub fn disposition(resp: &RawResponse, daily: bool) -> (r: Disposition)
    ensures
        r == disposition_of(resp.status, resp.is_json, daily),
{
    if daily && resp.status == 202 {
        Disposition::InProgress
    } else if resp.status != 200 {
        Disposition::ApiError
    } else if !resp.is_json {
        Disposition::NotJson
    } else {
        Disposition::Parse
    }
}

/// The domain error for an error answer; `details` is its body read as
/// problem details, where it reads so.
pub fn api_error(resp: &RawResponse, details: Option<Rfc7807>) -> (r: ToolOutcome)
    ensures
        r matches ToolOutcome::DomainError(m) && m@ == api_error_text(resp.status, resp.body@, details),
{
    ToolOutcome::DomainError(format_api_error(resp.status, resp.body.as_str(), details))
}

/// The fault for a successful answer that is not JSON.
pub fn not_json() -> (r: ToolOutcome)
    ensures
        r matches ToolOutcome::ProtocolFault(m) && m@ == "unexpected non-JSON response"@,
{
    ToolOutcome::ProtocolFault("unexpected non-JSON response".to_owned())
}

/// The fault for a body that does not parse; `reason` is the parser's word.
pub fn invalid_json(reason: &str) -> (r: ToolOutcome)
    ensures
        r matches ToolOutcome::ProtocolFault(m) && m@ == "invalid JSON: "@ + reason@,
{
    let mut m = "invalid JSON: ".to_owned();
    m.append(reason);
    ToolOutcome::ProtocolFault(m)
}

/// The guidance given while the daily challenge is being fetched; `fetching`
/// is the body read as such, where it reads so.
pub open spec fn in_progress_text(fetching: Option<DailyFetching>) -> Seq<char> {
    match fetching {
        Some(f) => "The daily challenge is currently being fetched. Please retry after "@
            + decimal(f.retry_after as nat) + " seconds."@,
        None => "The daily challenge is currently being fetched. Please retry later."@,
    }
}

/// The outcome while the daily challenge is being fetched: guidance, no error.
pub fn in_progress(fetching: Option<DailyFetching>) -> (r: ToolOutcome)
    ensures
        r matches ToolOutcome::Success(m) && m@ == in_progress_text(fetching),
{
    match fetching {
        Some(f) => {
            let mut m = "The daily challenge is currently being fetched. Please retry after ".to_owned();
            push_decimal(&mut m, f.retry_after);
            m.append(" seconds.");
            ToolOutcome::Success(m)
        },
        None => ToolOutcome::Success(
            "The daily challenge is currently being fetched. Please retry later.".to_owned(),
        ),
    }
}

/// The outcome of a parsed problem: its page, bounded in size. `converted`
/// is what the HTML converter made of its statement.
pub fn problem_reply(p: &Problem, converted: Option<String>) -> (r: ToolOutcome)
    ensures
        r matches ToolOutcome::Success(m) && m@ == truncated(
            problem_page(*p, description(content_text(*p), converted)),
        ),
{
    ToolOutcome::Success(truncate_output(format_problem(p, converted)))
}

/// The platform that the daily challenge belongs to when the backend leaves
/// its source empty.
pub open spec fn daily_source() -> Seq<char> {
    "leetcode"@
}

/// The source shown for a daily challenge whose source is `s`.
pub open spec fn daily_source_of(s: Seq<char>) -> Seq<char> {
    if s.len() == 0 {
        daily_source()
    } else {
        s
    }
}

/// The outcome of a parsed daily challenge: as `problem_reply`, where an empty
/// source reads `leetcode`.
pub fn daily_reply(p: Problem, converted: Option<String>) -> (r: ToolOutcome)
    ensures
        r matches ToolOutcome::Success(m) && m@ == truncated(
            page(p, daily_source_of(p.source@), description(content_text(p), converted)),
        ),
{
    let ghost original = p;
    let mut p = p;
    if p.source.as_str().unicode_len() == 0 {
        p.source = "leetcode".to_owned();
    }
    let md = format_problem(&p, converted);
    assert(md@ == page(original, daily_source_of(original.source@), description(content_text(original), converted)));
    ToolOutcome::Success(truncate_output(md))
}

/// The outcome of a parsed similarity search: its table, bounded in size.
pub fn similar_reply(resp: &SimilarResponse) -> (r: ToolOutcome)
    ensures
        r matches ToolOutcome::Success(m) && m@ == truncated(
            similar_head(resp.rewritten_query@) + similar_rows(resp.results@),
        ),
{
    ToolOutcome::Success(truncate_output(format_similar(resp)))
}

/// The outcome of a parsed status answer: its table, bounded in size.
pub fn status_reply(resp: &StatusResponse) -> (r: ToolOutcome)
    ensures
        r matches ToolOutcome::Success(m) && m@ == truncated(
            status_head(resp.version@) + status_rows(resp.platforms@),
        ),
{
    ToolOutcome::Success(truncate_output(format_status(resp)))
}

} // verus!
