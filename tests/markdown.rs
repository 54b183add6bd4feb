use llmdocs::markdown::{extract_items, extract_section, is_markdown_file};

#[test]
fn sections_round_trip_without_cross_contamination() {
    let doc = "## Context\nThe Decision was hard.\nMore context.\n## Decision\nKeep the Context small.\n";
    assert_eq!(
        extract_section(doc, "Context"),
        Some("The Decision was hard.\nMore context.".to_string())
    );
    assert_eq!(extract_section(doc, "Decision"), Some("Keep the Context small.".to_string()));
}

#[test]
fn section_absent_is_none() {
    assert_eq!(extract_section("no headings at all", "Context"), None);
    assert_eq!(extract_section("", "Context"), None);
    assert_eq!(extract_section("## Contexts\nx", "Context"), None);
}

#[test]
fn section_keeps_deeper_headings_and_stops_at_shallower() {
    let doc = "# Title\n## Overview\nintro\n### Detail\nmore\n# Next\nafter";
    assert_eq!(
        extract_section(doc, "Overview"),
        Some("intro\n### Detail\nmore".to_string())
    );
}

#[test]
fn section_stops_at_next_heading_not_last() {
    let doc = "## A\none\n## B\ntwo\n## A\nthree";
    assert_eq!(extract_section(doc, "A"), Some("one".to_string()));
    assert_eq!(extract_section(doc, "B"), Some("two".to_string()));
}

#[test]
fn list_items_keep_bullets_in_order() {
    let body = "intro line\n- first\n* second\n  [ ] third\nnot a bullet\n-   \n- fourth ";
    assert_eq!(
        extract_items(body),
        vec!["first".to_string(), "second".to_string(), "third".to_string(), "fourth".to_string()]
    );
}

#[test]
fn list_items_of_empty_body() {
    assert!(extract_items("").is_empty());
    assert!(extract_items("plain\ntext").is_empty());
}

#[test]
fn markdown_file_names() {
    assert!(is_markdown_file("notes.md"));
    assert!(!is_markdown_file(".md"));
    assert!(!is_markdown_file("notes.txt"));
}
