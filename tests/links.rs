use githubstats::links::{has_next_link, parse_link, parse_links_header, split_str, trim_str};

const GH: &str = "<https://api.github.com/user/1/repos?page=2>; rel=\"next\", <https://api.github.com/user/1/repos?page=5>; rel=\"last\"";

#[test]
fn header_with_next_and_last() {
    let links = parse_links_header(GH);
    assert_eq!(links.len(), 2);
    assert_eq!(links[0].url, "https://api.github.com/user/1/repos?page=2");
    assert_eq!(links[0].rel, "next");
    assert_eq!(links[1].url, "https://api.github.com/user/1/repos?page=5");
    assert_eq!(links[1].rel, "last");
    assert!(has_next_link(GH));
}

#[test]
fn last_page_has_no_next() {
    let h = "<https://x.test/r?page=1>; rel=\"first\", <https://x.test/r?page=2>; rel=\"prev\"";
    assert!(!has_next_link(h));
    assert_eq!(parse_links_header(h).len(), 2);
}

#[test]
fn next_out_of_order_and_extra_parameters() {
    let h = "<https://x.test/a>; rel=\"prev\", <https://x.test/b>; title=\"more\"; rel=\"next\"";
    assert!(has_next_link(h));
    let links = parse_links_header(h);
    assert_eq!(links[1].url, "https://x.test/b");
    assert_eq!(links[1].rel, "next");
}

#[test]
fn unquoted_relation_and_blanks() {
    let l = parse_link("  <https://x.test/c> ;\trel=next  ").unwrap();
    assert_eq!(l.url, "https://x.test/c");
    assert_eq!(l.rel, "next");
}

#[test]
fn malformed_segments_are_skipped() {
    assert!(parse_link("https://x.test/a; rel=\"next\"").is_none());
    assert!(parse_link("<https://x.test/a; rel=\"next\"").is_none());
    assert!(parse_link("<https://x.test/a>; title=\"t\"").is_none());
    assert!(parse_link("<https://x.test/a> junk; rel=\"next\"").is_none());
    let h = "garbage, <https://x.test/n>; rel=\"next\"";
    let links = parse_links_header(h);
    assert_eq!(links.len(), 1);
    assert_eq!(links[0].url, "https://x.test/n");
}

#[test]
fn empty_header_has_no_links() {
    assert!(parse_links_header("").is_empty());
    assert!(!has_next_link(""));
    assert!(!has_next_link("<https://x.test/n>; rel=\"nextpage\""));
}

#[test]
fn split_and_trim() {
    let parts = split_str("a,,b,", ',');
    assert_eq!(parts, vec!["a", "", "b", ""]);
    assert_eq!(split_str("", ','), vec![""]);
    assert_eq!(trim_str(" \t x y \t"), "x y");
    assert_eq!(trim_str("   "), "");
}
