use oj_mcp::convert::{
    content_needs_conversion, format_number, format_problem, format_similar, format_status,
    html_to_markdown, looks_like_html, truncate_output, MAX_OUTPUT_BYTES,
};
use oj_mcp::models::{PlatformStatus, Problem, SimilarResponse, SimilarResult, StatusResponse};

fn two_sum() -> Problem {
    Problem {
        id: "two-sum".to_string(),
        source: "leetcode".to_string(),
        slug: None,
        title: "Two Sum".to_string(),
        difficulty: Some("Easy".to_string()),
        ac_rate: None,
        rating: None,
        tags: Some(vec!["Array".to_string(), "Hash Table".to_string()]),
        link: Some("https://leetcode.com/problems/two-sum".to_string()),
        content: Some("<p>Given an array...</p>".to_string()),
    }
}

fn bare(title: &str) -> Problem {
    Problem {
        id: "1A".to_string(),
        source: "codeforces".to_string(),
        slug: None,
        title: title.to_string(),
        difficulty: None,
        ac_rate: None,
        rating: None,
        tags: None,
        link: None,
        content: None,
    }
}

#[test]
fn format_number_examples() {
    assert_eq!(format_number(1234567), "1,234,567");
    assert_eq!(format_number(0), "0");
    assert_eq!(format_number(999), "999");
    assert_eq!(format_number(1000), "1,000");
    assert_eq!(format_number(1000001), "1,000,001");
    assert_eq!(format_number(u64::MAX), "18,446,744,073,709,551,615");
}

#[test]
fn truncate_keeps_short_text() {
    assert_eq!(truncate_output("hello".to_string()), "hello");
    let exact = "a".repeat(MAX_OUTPUT_BYTES);
    assert_eq!(truncate_output(exact.clone()), exact);
}

#[test]
fn truncate_cuts_long_ascii() {
    let long = "b".repeat(MAX_OUTPUT_BYTES + 1);
    let out = truncate_output(long);
    assert_eq!(out.len(), MAX_OUTPUT_BYTES + "\n\n... (truncated)".len());
    assert!(out.ends_with("\n\n... (truncated)"));
    assert!(out.starts_with(&"b".repeat(MAX_OUTPUT_BYTES)));
}

#[test]
fn truncate_never_splits_a_character() {
    let s = format!("a{}", "é".repeat(MAX_OUTPUT_BYTES / 2));
    assert_eq!(s.len(), MAX_OUTPUT_BYTES + 1);
    let out = truncate_output(s);
    let kept = out.strip_suffix("\n\n... (truncated)").unwrap();
    assert_eq!(kept.len(), MAX_OUTPUT_BYTES - 1);
    assert!(kept.ends_with('é'));
}

#[test]
fn truncate_is_idempotent_on_fitting_text() {
    let once = truncate_output("x".repeat(MAX_OUTPUT_BYTES - 20));
    assert_eq!(truncate_output(once.clone()), once);
    let cut = truncate_output("y".repeat(MAX_OUTPUT_BYTES * 2));
    let again = truncate_output(cut.clone());
    assert!(again.ends_with("\n\n... (truncated)"));
    assert!(again.len() <= MAX_OUTPUT_BYTES + 17);
}

#[test]
fn html_detection() {
    assert!(!looks_like_html("plain text"));
    assert!(looks_like_html("<p>hi</p>"));
    assert!(looks_like_html("  <DIV class=x>hi</DIV>"));
    assert!(!looks_like_html("<foo>bar</foo>"));
    assert!(!looks_like_html("a < b"));
    assert!(!looks_like_html("text <p \n"));
    assert!(looks_like_html("text <p x"));
    assert!(looks_like_html("<A href=\"x\">y</a>"));
}

#[test]
fn plain_content_passes_through() {
    assert_eq!(html_to_markdown("no tags here", None), "no tags here");
    assert_eq!(html_to_markdown("<foo>bar</foo>", None), "<foo>bar</foo>");
    assert!(!content_needs_conversion("<foo>bar</foo>"));
    assert!(content_needs_conversion("<p>hi</p>"));
    assert!(!content_needs_conversion("   "));
}

#[test]
fn blank_content_has_fixed_text() {
    assert_eq!(html_to_markdown("", None), "No description available.");
    assert_eq!(html_to_markdown(" \n\t ", Some("x".to_string())), "No description available.");
}

#[test]
fn html_content_is_converted() {
    let converted = htmd::convert("<p>hi</p>").ok();
    let md = html_to_markdown("<p>hi</p>", converted);
    assert!(!md.trim().is_empty());
    assert!(md.contains("hi"));
    assert!(!md.contains("<p>"));
}

#[test]
fn failed_conversion_falls_back_to_clean_text() {
    let fallback = html_to_markdown("<p>hi</p>", None);
    assert_eq!(fallback, ammonia::clean_text("<p>hi</p>"));
    assert_ne!(fallback, "<p>hi</p>");
    let blank = html_to_markdown("<p>hi</p>", Some("  \n".to_string()));
    assert_eq!(blank, ammonia::clean_text("<p>hi</p>"));
}

#[test]
fn problem_page_scenario() {
    let p = two_sum();
    let converted = htmd::convert("<p>Given an array...</p>").ok();
    let md = format_problem(&p, converted);
    assert!(md.starts_with("# Two Sum"));
    assert!(md.contains("Difficulty: Easy"));
    assert!(md.contains("Tags: Array, Hash Table"));
    assert!(md.contains("Given an array..."));
}

#[test]
fn problem_page_with_absent_fields() {
    let md = format_problem(&bare("Theatre Square"), None);
    assert_eq!(
        md,
        "# Theatre Square\n\n- Source: codeforces | ID: 1A | Difficulty: N/A\n- Tags: N/A\n- Link: N/A\n- AC Rate: N/A\n\n---\n\nNo description available."
    );
}

#[test]
fn problem_page_with_rate_and_empty_tags() {
    let mut p = bare("T");
    p.ac_rate = Some("49.5".to_string());
    p.tags = Some(vec![]);
    p.content = Some("plain".to_string());
    let md = format_problem(&p, None);
    assert!(md.contains("- AC Rate: 49.5%\n"));
    assert!(md.contains("- Tags: N/A\n"));
    assert!(md.ends_with("---\n\nplain"));
}

#[test]
fn similar_table() {
    let resp = SimilarResponse {
        rewritten_query: "two numbers adding up".to_string(),
        results: vec![
            SimilarResult {
                source: "leetcode".to_string(),
                id: "1".to_string(),
                title: "Two Sum".to_string(),
                difficulty: Some("Easy".to_string()),
                link: None,
                similarity: "92.5".to_string(),
            },
            SimilarResult {
                source: "luogu".to_string(),
                id: "P1001".to_string(),
                title: "A+B".to_string(),
                difficulty: None,
                link: Some("https://www.luogu.com.cn/problem/P1001".to_string()),
                similarity: "80.0".to_string(),
            },
        ],
    };
    assert_eq!(
        format_similar(&resp),
        "# Similar Problems\n\nQuery: two numbers adding up\n\n| # | Source | ID | Title | Difficulty | Similarity | Link |\n|---|--------|----|-------|------------|------------|------|\n| 1 | leetcode | 1 | Two Sum | Easy | 92.5% | N/A |\n| 2 | luogu | P1001 | A+B | N/A | 80.0% | https://www.luogu.com.cn/problem/P1001 |\n"
    );
}

#[test]
fn status_table() {
    let resp = StatusResponse {
        version: "1.2.0".to_string(),
        platforms: vec![
            PlatformStatus {
                source: "leetcode".to_string(),
                total: 3456,
                missing_content: 0,
                not_embedded: 1234567,
            },
        ],
    };
    assert_eq!(
        format_status(&resp),
        "# OJ Platform Status (v1.2.0)\n\n| Platform | Problems | Missing Content | Not Embedded |\n|----------|----------|-----------------|--------------|\n| leetcode | 3,456 | 0 | 1,234,567 |\n"
    );
    let empty = StatusResponse { version: "0".to_string(), platforms: vec![] };
    assert!(format_status(&empty).ends_with("|--------------|\n"));
}
