use oj_mcp::client::{is_json_content_type, next_chunk, RawResponse, MAX_BODY_BYTES};
use oj_mcp::error::{format_api_error, Rfc7807};
use oj_mcp::models::{DailyFetching, Problem};
use oj_mcp::origin::validate_base_url;
use oj_mcp::tools::{
    api_error, daily_path, daily_path_on, daily_reply, disposition, in_progress, invalid_json,
    not_json, problem_path, resolve_path, similar_path, DailyParams, Disposition, Domain,
    GetProblemParams, ResolveParams, SimilarParams, Threshold, ToolOutcome,
};

fn similar(limit: Option<u32>) -> SimilarParams {
    SimilarParams {
        source: None,
        id: None,
        query: Some("shortest path in a grid".to_string()),
        limit,
        threshold: None,
        source_filter: None,
    }
}

fn text(o: ToolOutcome) -> (u8, String) {
    match o {
        ToolOutcome::Success(m) => (0, m),
        ToolOutcome::DomainError(m) => (1, m),
        ToolOutcome::ProtocolFault(m) => (2, m),
    }
}

fn response(status: u16, body: &str, is_json: bool) -> RawResponse {
    RawResponse { status, body: body.to_string(), is_json }
}

#[test]
fn titled_error_uses_body_status() {
    let d = Rfc7807 {
        status: Some(503),
        title: Some("Service Unavailable".to_string()),
        detail: Some("backend down".to_string()),
    };
    let body = r#"{"status":503,"title":"Service Unavailable","detail":"backend down"}"#;
    assert_eq!(format_api_error(503, body, Some(d)), "[503] Service Unavailable: backend down");
    let d = Rfc7807 { status: Some(404), title: Some("Not Found".to_string()), detail: None };
    assert_eq!(format_api_error(502, "{}", Some(d)), "[404] Not Found: ");
    let d = Rfc7807 { status: None, title: Some("Gone".to_string()), detail: Some("x".to_string()) };
    assert_eq!(format_api_error(410, "{}", Some(d)), "[410] Gone: x");
}

#[test]
fn untitled_error_shows_body_prefix() {
    assert_eq!(format_api_error(500, "<html>oops</html>", None), "[500] <html>oops</html>");
    let d = Rfc7807 { status: Some(400), title: None, detail: Some("d".to_string()) };
    assert_eq!(format_api_error(418, "{\"detail\":\"d\"}", Some(d)), "[418] {\"detail\":\"d\"}");
    let long = "ж".repeat(600);
    let m = format_api_error(502, &long, None);
    assert_eq!(m, format!("[502] {}", "ж".repeat(500)));
    assert_eq!(m.chars().count(), 506);
}

#[test]
fn service_unavailable_scenario() {
    let resp = response(503, r#"{"status":503,"title":"Service Unavailable","detail":"backend down"}"#, true);
    assert_eq!(disposition(&resp, false), Disposition::ApiError);
    let d = Rfc7807 {
        status: Some(503),
        title: Some("Service Unavailable".to_string()),
        detail: Some("backend down".to_string()),
    };
    assert_eq!(text(api_error(&resp, Some(d))), (1, "[503] Service Unavailable: backend down".to_string()));
}

#[test]
fn dispositions() {
    assert_eq!(disposition(&response(202, "{}", true), true), Disposition::InProgress);
    assert_eq!(disposition(&response(202, "{}", true), false), Disposition::ApiError);
    assert_eq!(disposition(&response(404, "", false), true), Disposition::ApiError);
    assert_eq!(disposition(&response(200, "<html>", false), false), Disposition::NotJson);
    assert_eq!(disposition(&response(200, "{}", true), false), Disposition::Parse);
    assert_eq!(text(not_json()), (2, "unexpected non-JSON response".to_string()));
    assert_eq!(text(invalid_json("EOF")), (2, "invalid JSON: EOF".to_string()));
}

#[test]
fn daily_in_progress_scenario() {
    let m = in_progress(Some(DailyFetching { retry_after: 30 }));
    assert_eq!(
        text(m),
        (0, "The daily challenge is currently being fetched. Please retry after 30 seconds.".to_string())
    );
    assert_eq!(
        text(in_progress(None)),
        (0, "The daily challenge is currently being fetched. Please retry later.".to_string())
    );
}

#[test]
fn daily_source_defaults_to_leetcode() {
    let p = Problem {
        id: "1".to_string(),
        source: String::new(),
        slug: None,
        title: "Daily".to_string(),
        difficulty: None,
        ac_rate: None,
        rating: None,
        tags: None,
        link: None,
        content: None,
    };
    let (kind, m) = text(daily_reply(p, None));
    assert_eq!(kind, 0);
    assert!(m.contains("- Source: leetcode | ID: 1"));
}

#[test]
fn limit_zero_is_refused() {
    assert_eq!(similar_path(&similar(Some(0))), Err("limit must be between 1 and 50".to_string()));
    assert_eq!(similar_path(&similar(Some(51))), Err("limit must be between 1 and 50".to_string()));
}

#[test]
fn similar_paths() {
    assert_eq!(
        similar_path(&similar(None)),
        Ok("/api/v1/similar?q=shortest%20path%20in%20a%20grid&limit=10&threshold=0".to_string())
    );
    let mut p = similar(Some(5));
    p.threshold = Some(Threshold { text: "0.5".to_string(), in_range: true });
    p.source_filter = Some("leetcode,codeforces".to_string());
    assert_eq!(
        similar_path(&p),
        Ok("/api/v1/similar?q=shortest%20path%20in%20a%20grid&limit=5&threshold=0.5&source=leetcode%2Ccodeforces".to_string())
    );
    p.threshold = Some(Threshold { text: "1.5".to_string(), in_range: false });
    assert_eq!(similar_path(&p), Err("threshold must be between 0.0 and 1.0".to_string()));
    let mut p = similar(Some(50));
    p.query = Some("  ab ".to_string());
    assert_eq!(similar_path(&p), Err("query must be between 3 and 2000 characters".to_string()));
    p.query = Some("  ".to_string());
    assert_eq!(
        similar_path(&p),
        Err("either 'query' or both 'source' and 'id' must be provided".to_string())
    );
    p.source = Some(" leetcode ".to_string());
    p.id = Some("two sum".to_string());
    assert_eq!(similar_path(&p), Ok("/api/v1/similar/leetcode/two%20sum?limit=50&threshold=0".to_string()));
}

#[test]
fn problem_paths() {
    let p = GetProblemParams { source: " leetcode ".to_string(), id: "two-sum".to_string() };
    assert_eq!(problem_path(&p), Ok("/api/v1/problems/leetcode/two-sum".to_string()));
    let p = GetProblemParams { source: "atcoder".to_string(), id: "abc 001/1".to_string() };
    assert_eq!(problem_path(&p), Ok("/api/v1/problems/atcoder/abc%20001%2F1".to_string()));
    let p = GetProblemParams { source: "luogu".to_string(), id: "  ".to_string() };
    assert_eq!(problem_path(&p), Err("source and id must be non-empty".to_string()));
    let q = ResolveParams { query: "https://leetcode.com/problems/two-sum/".to_string() };
    assert_eq!(resolve_path(&q), "/api/v1/resolve/https%3A%2F%2Fleetcode.com%2Fproblems%2Ftwo-sum%2F");
    let q = ResolveParams { query: "é".to_string() };
    assert_eq!(resolve_path(&q), "/api/v1/resolve/%C3%A9");
}

#[test]
fn daily_paths() {
    let p = DailyParams { domain: None, date: None };
    assert_eq!(daily_path_on(&p, "2024-05-01"), Ok("/api/v1/daily?domain=com&date=2024-05-01".to_string()));
    let p = DailyParams { domain: Some(Domain::Cn), date: Some("2024-02-29".to_string()) };
    assert_eq!(daily_path(&p), Ok("/api/v1/daily?domain=cn&date=2024-02-29".to_string()));
    let p = DailyParams { domain: None, date: Some("2024-13-01".to_string()) };
    assert_eq!(daily_path(&p), Err("invalid date format, expected YYYY-MM-DD".to_string()));
    let p = DailyParams { domain: None, date: None };
    assert!(daily_path(&p).unwrap().starts_with("/api/v1/daily?domain=com&date=20"));
    assert_eq!(Domain::default(), Domain::Com);
    assert_eq!(Domain::Cn.as_str(), "cn");
}

#[test]
fn json_content_types() {
    assert!(is_json_content_type("application/json"));
    assert!(is_json_content_type("Application/JSON; charset=utf-8"));
    assert!(is_json_content_type("application/problem+json"));
    assert!(!is_json_content_type("text/html"));
    assert!(!is_json_content_type("application/jso"));
}

#[test]
fn body_cap() {
    let s = next_chunk(0, 8192);
    assert_eq!((s.take, s.done), (8192, false));
    let s = next_chunk(MAX_BODY_BYTES - 10, 8192);
    assert_eq!((s.take, s.done), (10, true));
    let s = next_chunk(MAX_BODY_BYTES, 5);
    assert_eq!((s.take, s.done), (0, true));
    let s = next_chunk(MAX_BODY_BYTES - 10, 10);
    assert_eq!((s.take, s.done), (10, true));
}

#[test]
fn base_url_checks() {
    assert_eq!(validate_base_url("https://oj.example.com/"), Ok("https://oj.example.com".to_string()));
    assert_eq!(validate_base_url("http://localhost:8080"), Ok("http://localhost:8080".to_string()));
    assert_eq!(
        validate_base_url("ftp://oj.example.com"),
        Err("unsupported scheme 'ftp', expected http or https".to_string())
    );
    assert_eq!(
        validate_base_url("https://oj.example.com/api"),
        Err("base-url must be an origin (no path), got '/api'".to_string())
    );
    assert_eq!(validate_base_url("https://oj.example.com/?a=1"), Err("base-url must not contain a query string".to_string()));
    assert_eq!(validate_base_url("https://oj.example.com/#x"), Err("base-url must not contain a fragment".to_string()));
    assert_eq!(validate_base_url("https://u:p@oj.example.com"), Err("base-url must not contain credentials".to_string()));
    assert!(validate_base_url("not a url").unwrap_err().starts_with("invalid URL: "));
}
