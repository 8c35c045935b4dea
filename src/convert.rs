//! Markdown rendering of the backend's records, and the bound on output size.
use vstd::prelude::*;
use vstd::string::*;
use vstd::utf8::*;
use crate::models::{PlatformStatus, Problem, SimilarResponse, SimilarResult, StatusResponse};
use crate::text::{
    blank, chars_of, decimal, digit, digit_char, is_blank, push_char, push_decimal, trim_bounds,
    trimmed,
};

verus! {

/// Three decimal digits of `m`, zero-padded on the left.
pub open spec fn three_digits(m: nat) -> Seq<char> {
    seq![digit_char((m / 100) % 10), digit_char((m / 10) % 10), digit_char(m % 10)]
}

/// `n` in decimal with a `,` between each group of three digits, counted
/// from the right.
pub open spec fn grouped(n: nat) -> Seq<char>
    decreases n,
{
    if n < 1000 {
        decimal(n)
    } else {
        grouped(n / 1000) + seq![','] + three_digits(n % 1000)
    }
}

fn push_grouped(out: &mut String, n: u64)
    ensures
        final(out)@ == old(out)@ + grouped(n as nat),
    decreases n,
{
    if n < 1000 {
        push_decimal(out, n);
    } else {
        let ghost before = out@;
        push_grouped(out, n / 1000);
        push_char(out, ',');
        let m = n % 1000;
        push_char(out, digit((m / 100) % 10));
        push_char(out, digit((m / 10) % 10));
        push_char(out, digit(m % 10));
        assert(out@ =~= before + grouped(n as nat));
    }
}

/// Renders a count with thousands separators: `1234567` becomes `1,234,567`.
pub fn format_number(n: u64) -> (r: String)
    ensures
        r@ == grouped(n as nat),
{
    let mut r = String::new();
    push_grouped(&mut r, n);
    assert(r@ =~= grouped(n as nat));
    r
}

/// The largest size, in UTF-8 bytes, of one rendered response.
pub const MAX_OUTPUT_BYTES: usize = 102400;

/// What is appended to a response that was cut short.
pub open spec fn truncation_marker() -> Seq<char> {
    "\n\n... (truncated)"@
}

/// The largest character boundary of `b` at or before byte offset `i`.
pub open spec fn floor_boundary(b: Seq<u8>, i: int) -> int
    decreases i,
{
    if i <= 0 {
        0
    } else if is_char_boundary(b, i) {
        i
    } else {
        floor_boundary(b, i - 1)
    }
}

/// `s` unchanged when its UTF-8 encoding fits in `MAX_OUTPUT_BYTES`; else the
/// characters that fit before the last boundary within the bound, then the
/// marker.
pub open spec fn truncated(s: Seq<char>) -> Seq<char> {
    let b = encode_utf8(s);
    if b.len() <= MAX_OUTPUT_BYTES {
        s
    } else {
        decode_utf8(b.subrange(0, floor_boundary(b, MAX_OUTPUT_BYTES as int))) + truncation_marker()
    }
}

/// Bounds a rendered response to `MAX_OUTPUT_BYTES`, cutting at a character
/// boundary and marking the cut.
pub fn truncate_output(s: String) -> (r: String)
    ensures
        r@ == truncated(s@),
{
    broadcast use group_utf8_lib;

    let ghost b = encode_utf8(s@);
    let t = s.as_str();
    assert(t.spec_bytes() == b);
    assert(valid_utf8(b));
    let n = t.as_bytes().len();
    if n <= MAX_OUTPUT_BYTES {
        return s;
    }
    let mut i: usize = MAX_OUTPUT_BYTES;
    while !t.is_char_boundary(i)
        invariant
            i <= MAX_OUTPUT_BYTES,
            b == encode_utf8(s@),
            b == t.spec_bytes(),
            valid_utf8(b),
            b.len() > MAX_OUTPUT_BYTES,
            floor_boundary(b, MAX_OUTPUT_BYTES as int) == floor_boundary(b, i as int),
        decreases i,
    {
        assert(i != 0);
        i = i - 1;
    }
    let (head, _rest) = t.split_at(i);
    proof {
        assert(head@ == decode_utf8(encode_utf8(head@)));
        assert(floor_boundary(b, i as int) == i);
    }
    let mut r = head.to_owned();
    r.append("\n\n... (truncated)");
    r
}

/// The openers of the markup tags that mark a text as HTML, in lower case.
pub open spec fn html_tag(k: int) -> Seq<char> {
    if k == 0 { "<p>"@ }
    else if k == 1 { "<p "@ }
    else if k == 2 { "<div"@ }
    else if k == 3 { "<ul"@ }
    else if k == 4 { "<ol"@ }
    else if k == 5 { "<li"@ }
    else if k == 6 { "<table"@ }
    else if k == 7 { "<br"@ }
    else if k == 8 { "<h1"@ }
    else if k == 9 { "<h2"@ }
    else if k == 10 { "<h3"@ }
    else if k == 11 { "<h4"@ }
    else if k == 12 { "<h5"@ }
    else if k == 13 { "<h6"@ }
    else if k == 14 { "<pre>"@ }
    else if k == 15 { "<pre "@ }
    else if k == 16 { "<code>"@ }
    else if k == 17 { "<code "@ }
    else if k == 18 { "<strong"@ }
    else if k == 19 { "<em>"@ }
    else if k == 20 { "<em "@ }
    else if k == 21 { "<span"@ }
    else if k == 22 { "<img"@ }
    else { "<a "@ }
}

/// How many tag openers `html_tag` lists.
pub const N_HTML_TAGS: usize = 24;

fn tag_opener(k: usize) -> (t: &'static str)
    requires
        k < N_HTML_TAGS,
    ensures
        t@ == html_tag(k as int),
{
    match k {
        0 => "<p>",
        1 => "<p ",
        2 => "<div",
        3 => "<ul",
        4 => "<ol",
        5 => "<li",
        6 => "<table",
        7 => "<br",
        8 => "<h1",
        9 => "<h2",
        10 => "<h3",
        11 => "<h4",
        12 => "<h5",
        13 => "<h6",
        14 => "<pre>",
        15 => "<pre ",
        16 => "<code>",
        17 => "<code ",
        18 => "<strong",
        19 => "<em>",
        20 => "<em ",
        21 => "<span",
        22 => "<img",
        _ => "<a ",
    }
}

/// `c` read as `t` when ASCII letters are compared without case (`t` in
/// lower case).
pub open spec fn same_letter(c: char, t: char) -> bool {
    c == t || ('a' <= t && t <= 'z' && c as u32 + 32 == t as u32)
}

/// `tag` occurs in `s` at offset `i`, ASCII letters compared without case.
pub open spec fn occurs_at(s: Seq<char>, tag: Seq<char>, i: int) -> bool {
    0 <= i && i + tag.len() <= s.len() && forall|j: int|
        0 <= j < tag.len() ==> #[trigger] same_letter(s[i + j], tag[j])
}

/// `tag` occurs somewhere in `s`, ASCII letters compared without case.
pub open spec fn occurs_in(s: Seq<char>, tag: Seq<char>) -> bool {
    exists|i: int| occurs_at(s, tag, i)
}

/// The trimmed text holds a `<` and one of the tag openers of `html_tag`.
pub open spec fn is_html(s: Seq<char>) -> bool {
    let t = trimmed(s);
    t.contains('<') && exists|k: int| 0 <= k < N_HTML_TAGS && occurs_in(t, #[trigger] html_tag(k))
}

fn same_letter_exec(c: char, t: char) -> (r: bool)
    ensures
        r == same_letter(c, t),
{
    c == t || ('a' <= t && t <= 'z' && (c as u32) + 32 == (t as u32))
}

fn occurs_at_exec(s: &Vec<char>, a: usize, b: usize, tag: &str, i: usize) -> (r: bool)
    requires
        a <= b <= s@.len(),
    ensures
        r == occurs_at(s@.subrange(a as int, b as int), tag@, i as int),
{
    let ghost t = s@.subrange(a as int, b as int);
    let n = tag.unicode_len();
    if i > b - a || n > b - a - i {
        return false;
    }
    let mut j: usize = 0;
    while j < n
        invariant
            j <= n == tag@.len(),
            a <= b <= s@.len(),
            i + n <= b - a,
            t == s@.subrange(a as int, b as int),
            forall|k: int| 0 <= k < j ==> #[trigger] same_letter(t[i + k], tag@[k]),
        decreases n - j,
    {
        if !same_letter_exec(s[a + i + j], tag.get_char(j)) {
            assert(!same_letter(t[i + j as int], tag@[j as int]));
            return false;
        }
        j = j + 1;
    }
    true
}

fn occurs_in_exec(s: &Vec<char>, a: usize, b: usize, tag: &str) -> (r: bool)
    requires
        a <= b <= s@.len(),
    ensures
        r == occurs_in(s@.subrange(a as int, b as int), tag@),
{
    let ghost t = s@.subrange(a as int, b as int);
    let mut i: usize = 0;
    while i < b - a
        invariant
            a <= b <= s@.len(),
            t == s@.subrange(a as int, b as int),
            forall|k: int| 0 <= k < i ==> !occurs_at(t, tag@, k),
        decreases b - a - i,
    {
        if occurs_at_exec(s, a, b, tag, i) {
            return true;
        }
        i = i + 1;
    }
    if occurs_at_exec(s, a, b, tag, i) {
        return true;
    }
    assert forall|k: int| !occurs_at(t, tag@, k) by {
        if 0 <= k && k < i {
        }
    }
    false
}

fn holds_lt(s: &Vec<char>, a: usize, b: usize) -> (r: bool)
    requires
        a <= b <= s@.len(),
    ensures
        r == s@.subrange(a as int, b as int).contains('<'),
{
    let ghost t = s@.subrange(a as int, b as int);
    let mut i: usize = a;
    while i < b
        invariant
            a <= i <= b <= s@.len(),
            t == s@.subrange(a as int, b as int),
            forall|k: int| a <= k < i ==> s@[k] != '<',
        decreases b - i,
    {
        if s[i] == '<' {
            assert(t[i - a] == '<');
            return true;
        }
        i = i + 1;
    }
    assert forall|k: int| 0 <= k < t.len() implies t[k] != '<' by {
        assert(t[k] == s@[a + k]);
    }
    false
}

/// Whether `s` reads as HTML: once trimmed, it holds a `<` and one of the
/// tag openers of `html_tag`, letters compared without case.
pub fn looks_like_html(s: &str) -> (r: bool)
    ensures
        r == is_html(s@),
{
    let v = chars_of(s);
    let (a, b) = trim_bounds(&v);
    if !holds_lt(&v, a, b) {
        return false;
    }
    let mut k: usize = 0;
    while k < N_HTML_TAGS
        invariant
            a <= b <= v@.len(),
            v@.subrange(a as int, b as int) == trimmed(s@),
            trimmed(s@).contains('<'),
            forall|m: int| 0 <= m < k ==> !occurs_in(trimmed(s@), #[trigger] html_tag(m)),
        decreases N_HTML_TAGS - k,
    {
        if occurs_in_exec(&v, a, b, tag_opener(k)) {
            assert(occurs_in(trimmed(s@), html_tag(k as int)));
            return true;
        }
        k = k + 1;
    }
    false
}

/// What `ammonia::clean_text` makes of `s`.
pub uninterp spec fn clean_text_of(s: Seq<char>) -> Seq<char>;

/// Relies on ammonia::clean_text: markup in `s` is made inert, and the result
/// depends on `s` alone.
#[verifier::external_body]
fn clean_text(s: &str) -> (r: String)
    ensures
        r@ == clean_text_of(s@),
{
    ammonia::clean_text(s)
}

/// What stands for a missing or blank problem statement.
pub open spec fn no_description() -> Seq<char> {
    "No description available."@
}

/// Whether `content` is to be handed to the HTML converter: it is not blank
/// and reads as HTML.
pub open spec fn needs_conversion(content: Seq<char>) -> bool {
    !is_blank(content) && is_html(content)
}

/// The markdown for a problem statement. `converted` is what the HTML
/// converter made of it, or `None` where it failed; it is read only where
/// `needs_conversion` holds. A blank conversion is no conversion.
pub open spec fn description(content: Seq<char>, converted: Option<String>) -> Seq<char> {
    if is_blank(content) {
        no_description()
    } else if !is_html(content) {
        content
    } else if converted is Some && !is_blank(converted->0@) {
        converted->0@
    } else {
        clean_text_of(content)
    }
}

/// Whether `content` is to be handed to the HTML converter.
pub fn content_needs_conversion(content: &str) -> (r: bool)
    ensures
        r == needs_conversion(content@),
{
    !blank(content) && looks_like_html(content)
}

/// Renders a problem statement as markdown: a fixed text where it is blank,
/// the text itself where it is not HTML, else the converter's output, or the
/// sanitised text where the converter failed or gave nothing.
pub fn html_to_markdown(content: &str, converted: Option<String>) -> (r: String)
    ensures
        r@ == description(content@, converted),
{
    if blank(content) {
        return "No description available.".to_owned();
    }
    if !looks_like_html(content) {
        return content.to_owned();
    }
    match converted {
        Some(md) => {
            if !blank(md.as_str()) {
                md
            } else {
                clean_text(content)
            }
        },
        None => clean_text(content),
    }
}

/// The text of an optional field, `N/A` where it is absent.
pub open spec fn or_na(o: Option<String>) -> Seq<char> {
    match o {
        Some(s) => s@,
        None => "N/A"@,
    }
}

fn push_or_na(out: &mut String, o: &Option<String>)
    ensures
        final(out)@ == old(out)@ + or_na(*o),
{
    match o {
        Some(s) => out.append(s.as_str()),
        None => out.append("N/A"),
    }
}

/// The items of `v` with `sep` between each two.
pub open spec fn joined(v: Seq<String>, sep: Seq<char>) -> Seq<char>
    decreases v.len(),
{
    if v.len() == 0 {
        Seq::empty()
    } else if v.len() == 1 {
        v[0]@
    } else {
        joined(v.drop_last(), sep) + sep + v.last()@
    }
}

/// The tag line's text: the tags joined by `, `, or `N/A` where there are none.
pub open spec fn tag_text(tags: Option<Vec<String>>) -> Seq<char> {
    match tags {
        Some(v) => if v@.len() > 0 { joined(v@, ", "@) } else { "N/A"@ },
        None => "N/A"@,
    }
}

fn push_tags(out: &mut String, tags: &Option<Vec<String>>)
    ensures
        final(out)@ == old(out)@ + tag_text(*tags),
{
    match tags {
        Some(v) => {
            if v.len() == 0 {
                out.append("N/A");
                return;
            }
            let ghost start = out@;
            out.append(v[0].as_str());
            let mut i: usize = 1;
            assert(v@.take(1).drop_last() =~= v@.take(0));
            assert(out@ =~= start + joined(v@.take(1), ", "@));
            while i < v.len()
                invariant
                    1 <= i <= v@.len(),
                    out@ == start + joined(v@.take(i as int), ", "@),
                decreases v@.len() - i,
            {
                out.append(", ");
                out.append(v[i].as_str());
                assert(v@.take(i + 1).drop_last() =~= v@.take(i as int));
                assert(out@ =~= start + joined(v@.take(i + 1), ", "@));
                i = i + 1;
            }
            assert(v@.take(i as int) =~= v@);
        },
        None => out.append("N/A"),
    }
}

/// The acceptance rate's text: the percentage with `%`, or `N/A`.
pub open spec fn rate_text(rate: Option<String>) -> Seq<char> {
    match rate {
        Some(s) => s@ + "%"@,
        None => "N/A"@,
    }
}

/// The markdown page of a problem shown with source `source`, around the
/// already rendered statement.
pub open spec fn page(p: Problem, source: Seq<char>, body: Seq<char>) -> Seq<char> {
    "# "@ + p.title@ + "\n\n- Source: "@ + source + " | ID: "@ + p.id@ + " | Difficulty: "@
        + or_na(p.difficulty) + "\n- Tags: "@ + tag_text(p.tags) + "\n- Link: "@ + or_na(p.link)
        + "\n- AC Rate: "@ + rate_text(p.ac_rate) + "\n\n---\n\n"@ + body
}

/// The markdown page of a problem, around the already rendered statement.
pub open spec fn problem_page(p: Problem, body: Seq<char>) -> Seq<char> {
    page(p, p.source@, body)
}

/// The statement of `p` as it is to be rendered (empty where absent).
pub open spec fn content_text(p: Problem) -> Seq<char> {
    match p.content {
        Some(c) => c@,
        None => Seq::empty(),
    }
}

/// Renders a problem as a markdown page: title, a line of source, ID and
/// difficulty, the tags, the link, the acceptance rate, then the statement.
/// `converted` is what the HTML converter made of the statement (see
/// `html_to_markdown`).
pub fn format_problem(p: &Problem, converted: Option<String>) -> (r: String)
    ensures
        r@ == problem_page(*p, description(content_text(*p), converted)),
{
    let body = match &p.content {
        Some(c) => html_to_markdown(c.as_str(), converted),
        None => html_to_markdown("", converted),
    };
    proof {
        reveal_strlit("");
    }
    let mut out = String::new();
    out.append("# ");
    out.append(p.title.as_str());
    out.append("\n\n- Source: ");
    out.append(p.source.as_str());
    out.append(" | ID: ");
    out.append(p.id.as_str());
    out.append(" | Difficulty: ");
    push_or_na(&mut out, &p.difficulty);
    out.append("\n- Tags: ");
    push_tags(&mut out, &p.tags);
    out.append("\n- Link: ");
    push_or_na(&mut out, &p.link);
    out.append("\n- AC Rate: ");
    match &p.ac_rate {
        Some(a) => {
            out.append(a.as_str());
            out.append("%");
        },
        None => out.append("N/A"),
    }
    out.append("\n\n---\n\n");
    out.append(body.as_str());
    assert(out@ =~= problem_page(*p, description(content_text(*p), converted)));
    out
}

/// The heading of a similarity page, up to the table's rule.
pub open spec fn similar_head(query: Seq<char>) -> Seq<char> {
    "# Similar Problems\n\nQuery: "@ + query
        + "\n\n| # | Source | ID | Title | Difficulty | Similarity | Link |\n|---|--------|----|-------|------------|------------|------|\n"@
}

/// The table row of match `r` at rank `rank`.
pub open spec fn similar_row(r: SimilarResult, rank: nat) -> Seq<char> {
    "| "@ + decimal(rank) + " | "@ + r.source@ + " | "@ + r.id@ + " | "@ + r.title@ + " | "@
        + or_na(r.difficulty) + " | "@ + r.similarity@ + "%"@ + " | "@ + or_na(r.link) + " |\n"@
}

/// The rows of `rs`, ranked from 1 in their order.
pub open spec fn similar_rows(rs: Seq<SimilarResult>) -> Seq<char>
    decreases rs.len(),
{
    if rs.len() == 0 {
        Seq::empty()
    } else {
        similar_rows(rs.drop_last()) + similar_row(rs.last(), rs.len())
    }
}

fn push_similar_row(out: &mut String, r: &SimilarResult, rank: u64)
    ensures
        final(out)@ == old(out)@ + similar_row(*r, rank as nat),
{
    let ghost before = out@;
    out.append("| ");
    push_decimal(out, rank);
    out.append(" | ");
    out.append(r.source.as_str());
    out.append(" | ");
    out.append(r.id.as_str());
    out.append(" | ");
    out.append(r.title.as_str());
    out.append(" | ");
    push_or_na(out, &r.difficulty);
    out.append(" | ");
    out.append(r.similarity.as_str());
    out.append("%");
    out.append(" | ");
    push_or_na(out, &r.link);
    out.append(" |\n");
    assert(out@ =~= before + similar_row(*r, rank as nat));
}

/// Renders a similarity search as a markdown table, one row per match in the
/// backend's order, ranked from 1.
pub fn format_similar(resp: &SimilarResponse) -> (r: String)
    ensures
        r@ == similar_head(resp.rewritten_query@) + similar_rows(resp.results@),
{
    let mut out = String::new();
    out.append("# Similar Problems\n\nQuery: ");
    out.append(resp.rewritten_query.as_str());
    out.append(
        "\n\n| # | Source | ID | Title | Difficulty | Similarity | Link |\n|---|--------|----|-------|------------|------------|------|\n",
    );
    let ghost head = out@;
    assert(head =~= similar_head(resp.rewritten_query@));
    let rs = &resp.results;
    let mut i: usize = 0;
    assert(rs@.take(0) =~= Seq::<SimilarResult>::empty());
    while i < rs.len()
        invariant
            i <= rs@.len(),
            rs == &resp.results,
            head == similar_head(resp.rewritten_query@),
            out@ == head + similar_rows(rs@.take(i as int)),
        decreases rs@.len() - i,
    {
        push_similar_row(&mut out, &rs[i], (i + 1) as u64);
        assert(rs@.take(i + 1).drop_last() =~= rs@.take(i as int));
        i = i + 1;
    }
    assert(rs@.take(i as int) =~= rs@);
    out
}

/// The heading of a status page, up to the table's rule.
pub open spec fn status_head(version: Seq<char>) -> Seq<char> {
    "# OJ Platform Status (v"@ + version
        + ")\n\n| Platform | Problems | Missing Content | Not Embedded |\n|----------|----------|-----------------|--------------|\n"@
}

/// The table row of one platform, counts with thousands separators.
pub open spec fn status_row(p: PlatformStatus) -> Seq<char> {
    "| "@ + p.source@ + " | "@ + grouped(p.total as nat) + " | "@ + grouped(p.missing_content as nat)
        + " | "@ + grouped(p.not_embedded as nat) + " |\n"@
}

/// The rows of `ps`, in their order.
pub open spec fn status_rows(ps: Seq<PlatformStatus>) -> Seq<char>
    decreases ps.len(),
{
    if ps.len() == 0 {
        Seq::empty()
    } else {
        status_rows(ps.drop_last()) + status_row(ps.last())
    }
}

fn push_status_row(out: &mut String, p: &PlatformStatus)
    ensures
        final(out)@ == old(out)@ + status_row(*p),
{
    let ghost before = out@;
    out.append("| ");
    out.append(p.source.as_str());
    out.append(" | ");
    push_grouped(out, p.total);
    out.append(" | ");
    push_grouped(out, p.missing_content);
    out.append(" | ");
    push_grouped(out, p.not_embedded);
    out.append(" |\n");
    assert(out@ =~= before + status_row(*p));
}

/// Renders the backend's status as a markdown table, one row per platform in
/// the backend's order.
pub fn format_status(resp: &StatusResponse) -> (r: String)
    ensures
        r@ == status_head(resp.version@) + status_rows(resp.platforms@),
{
    let mut out = String::new();
    out.append("# OJ Platform Status (v");
    out.append(resp.version.as_str());
    out.append(
        ")\n\n| Platform | Problems | Missing Content | Not Embedded |\n|----------|----------|-----------------|--------------|\n",
    );
    let ghost head = out@;
    assert(head =~= status_head(resp.version@));
    let ps = &resp.platforms;
    let mut i: usize = 0;
    assert(ps@.take(0) =~= Seq::<PlatformStatus>::empty());
    while i < ps.len()
        invariant
            i <= ps@.len(),
            ps == &resp.platforms,
            head == status_head(resp.version@),
            out@ == head + status_rows(ps@.take(i as int)),
        decreases ps@.len() - i,
    {
        push_status_row(&mut out, &ps[i]);
        assert(ps@.take(i + 1).drop_last() =~= ps@.take(i as int));
        i = i + 1;
    }
    assert(ps@.take(i as int) =~= ps@);
    out
}

} // verus!
