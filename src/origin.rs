//! The check that a configured base URL is a bare HTTP(S) origin.
use vstd::prelude::*;
use vstd::string::*;
use crate::text::{chars_of, text_result};

verus! {

/// The parts of a parsed URL that the origin check reads.
pub struct UrlParts {
    pub scheme: String,
    pub path: String,
    pub query: Option<String>,
    pub fragment: Option<String>,
    pub username: String,
    pub password: Option<String>,
    /// The whole URL as the parser writes it back.
    pub serialized: String,
}

/// The texts of `UrlParts`.
pub ghost struct UrlFields {
    pub scheme: Seq<char>,
    pub path: Seq<char>,
    pub query: Option<Seq<char>>,
    pub fragment: Option<Seq<char>>,
    pub username: Seq<char>,
    pub password: Option<Seq<char>>,
    pub serialized: Seq<char>,
}

/// The text of an optional string.
pub open spec fn opt_text(o: Option<String>) -> Option<Seq<char>> {
    match o {
        Some(s) => Some(s@),
        None => None,
    }
}

impl View for UrlParts {
    type V = UrlFields;

    open spec fn view(&self) -> UrlFields {
        UrlFields {
            scheme: self.scheme@,
            path: self.path@,
            query: opt_text(self.query),
            fragment: opt_text(self.fragment),
            username: self.username@,
            password: opt_text(self.password),
            serialized: self.serialized@,
        }
    }
}

/// What the `url` crate makes of `raw`: its parts, or the text of its error.
pub uninterp spec fn parsed_url(raw: Seq<char>) -> Result<UrlFields, Seq<char>>;

/// Relies on url::Url::parse and the accessors of url::Url: the parts of
/// `raw` as parsed, or the parse error's text; both depend on `raw` alone.
#[verifier::external_body]
fn parse_url(raw: &str) -> (r: Result<UrlParts, String>)
    ensures
        match r {
            Ok(p) => parsed_url(raw@) == Ok::<UrlFields, Seq<char>>(p@),
            Err(e) => parsed_url(raw@) == Err::<UrlFields, Seq<char>>(e@),
        },
{
    match url::Url::parse(raw) {
        Ok(u) => Ok(UrlParts {
            scheme: u.scheme().to_owned(),
            path: u.path().to_owned(),
            query: u.query().map(str::to_owned),
            fragment: u.fragment().map(str::to_owned),
            username: u.username().to_owned(),
            password: u.password().map(str::to_owned),
            serialized: u.as_str().to_owned(),
        }),
        Err(e) => Err(e.to_string()),
    }
}

/// `s` without its trailing `/` characters.
pub open spec fn without_trailing_slashes(s: Seq<char>) -> Seq<char>
    decreases s.len(),
{
    if s.len() > 0 && s.last() == '/' {
        without_trailing_slashes(s.drop_last())
    } else {
        s
    }
}

/// The origin that `u` stands for, or why it is refused: the scheme must be
/// `http` or `https`, and there must be no path, query, fragment or
/// credentials.
pub open spec fn origin_check(u: UrlFields) -> Result<Seq<char>, Seq<char>> {
    if u.scheme != "http"@ && u.scheme != "https"@ {
        Err("unsupported scheme '"@ + u.scheme + "', expected http or https"@)
    } else if u.path != "/"@ && u.path.len() != 0 {
        Err("base-url must be an origin (no path), got '"@ + u.path + "'"@)
    } else if u.query is Some {
        Err("base-url must not contain a query string"@)
    } else if u.fragment is Some {
        Err("base-url must not contain a fragment"@)
    } else if u.username.len() != 0 || u.password is Some {
        Err("base-url must not contain credentials"@)
    } else {
        Ok(without_trailing_slashes(u.serialized))
    }
}

/// The base URL that `raw` stands for, or why it is refused.
pub open spec fn base_url_check(raw: Seq<char>) -> Result<Seq<char>, Seq<char>> {
    match parsed_url(raw) {
        Ok(u) => origin_check(u),
        Err(e) => Err("invalid URL: "@ + e),
    }
}

fn strip_trailing_slashes(s: &str) -> (r: String)
    ensures
        r@ == without_trailing_slashes(s@),
{
    let v = chars_of(s);
    let mut j: usize = v.len();
    assert(v@.subrange(0, j as int) =~= s@);
    while j > 0 && v[j - 1] == '/'
        invariant
            j <= v@.len(),
            v@ == s@,
            without_trailing_slashes(v@.subrange(0, j as int)) == without_trailing_slashes(s@),
        decreases j,
    {
        assert(v@.subrange(0, j as int).drop_last() =~= v@.subrange(0, j - 1));
        j = j - 1;
    }
    s.substring_char(0, j).to_owned()
}

/// Checks that parsed URL parts form a bare HTTP(S) origin, and gives the
/// origin without trailing `/`.
pub fn validate_origin(u: &UrlParts) -> (r: Result<String, String>)
    ensures
        text_result(r) == origin_check(u@),
{
    let http = "http".to_owned();
    let https = "https".to_owned();
    let slash = "/".to_owned();
    if !(u.scheme == http) && !(u.scheme == https) {
        let mut m = "unsupported scheme '".to_owned();
        m.append(u.scheme.as_str());
        m.append("', expected http or https");
        return Err(m);
    }
    if !(u.path == slash) && u.path.as_str().unicode_len() != 0 {
        let mut m = "base-url must be an origin (no path), got '".to_owned();
        m.append(u.path.as_str());
        m.append("'");
        return Err(m);
    }
    if u.query.is_some() {
        return Err("base-url must not contain a query string".to_owned());
    }
    if u.fragment.is_some() {
        return Err("base-url must not contain a fragment".to_owned());
    }
    if u.username.as_str().unicode_len() != 0 || u.password.is_some() {
        return Err("base-url must not contain credentials".to_owned());
    }
    Ok(strip_trailing_slashes(u.serialized.as_str()))
}

/// Parses a configured base URL and checks that it is a bare HTTP(S)
/// origin; gives the origin without trailing `/`.
pub fn validate_base_url(raw: &str) -> (r: Result<String, String>)
    ensures
        text_result(r) == base_url_check(raw@),
{
    match parse_url(raw) {
        Ok(parts) => validate_origin(&parts),
        Err(e) => {
            let mut m = "invalid URL: ".to_owned();
            m.append(e.as_str());
            Err(m)
        },
    }
}

} // verus!
