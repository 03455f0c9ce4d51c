use downfav::storage::data::Data;
use downfav::html::parse_html;
use downfav::storage::helpers::check_items_in_lists;
use downfav::storage::helpers::compose_markdown;
use downfav::storage::helpers::make_body;
use downfav::storage::helpers::make_markdown;

fn record(title: &str, text: &str, source: &str) -> Data {
    Data {
        id: String::from("1"),
        account: String::from("alice"),
        title: String::from(title),
        text: String::from(text),
        attachments: vec![],
        source: String::from(source),
    }
}

#[test]
fn compose_puts_title_and_source_around_the_body() {
    assert_eq!(compose_markdown("cw", "body", "https://x/1"), "cw\n\nbody\n\nhttps://x/1");
}

#[test]
fn compose_without_title_starts_with_the_body() {
    assert_eq!(compose_markdown("", "body", "https://x/1"), "body\n\nhttps://x/1");
}

#[test]
fn compose_without_source_ends_with_the_body() {
    assert_eq!(compose_markdown("cw", "body", ""), "cw\n\nbody");
}

#[test]
fn compose_of_a_bare_body_is_the_body() {
    assert_eq!(compose_markdown("", "body", ""), "body");
    assert_eq!(compose_markdown("", "", ""), "");
    assert_eq!(compose_markdown("", "\n\nbody\n\n", ""), "\n\nbody\n\n");
}

#[test]
fn markdown_converts_the_html_of_the_record() {
    assert_eq!(make_markdown(&record("", "<p>hi</p>", "")), "hi");
    assert_ne!(make_markdown(&record("", "<p>hi</p>", "")), "<p>hi</p>");
}

#[test]
fn markdown_of_a_bare_record_is_the_converted_body() {
    let html = "<p>one <strong>two</strong></p><p>three <a href=\"https://x/\">four</a></p>";
    assert_eq!(make_markdown(&record("", html, "")), html2md::parse_html(html));
}

#[test]
fn markdown_of_a_full_record() {
    let html = "<p>one <strong>two</strong></p>";
    let expected = format!("spoiler\n\n{}\n\nhttps://example.org/1", html2md::parse_html(html));
    assert_eq!(make_markdown(&record("spoiler", html, "https://example.org/1")), expected);
    assert_eq!(
        make_markdown(&record("spoiler", html, "https://example.org/1")),
        "spoiler\n\none **two**\n\nhttps://example.org/1"
    );
}

#[test]
fn lists_are_converted() {
    assert_eq!(make_body("<ul><li>one</li><li>two</li></ul>"), html2md::parse_html("<ul><li>one</li><li>two</li></ul>"));
    assert_eq!(make_body("<ul><li>one</li><li>two</li></ul>"), "* one\n* two");
    assert_eq!(make_body("<ol><li>one</li><li><b>two</b></li></ol>"), "1. one\n2. **two**");
}

#[test]
fn list_items_without_a_list_stay_html() {
    let stray = [
        "<div><b><li></li></b></div>",
        "<blockquote><li></li></blockquote>",
        "<p>x</p><a href=\"https://x/\"><li>y</li></a>",
        "<li>alone</li>",
        "<ul><li><table><tr><td> a<b><li>x</li></b></td></tr></table></li></ul>",
    ];
    for html in stray {
        assert_eq!(make_body(html), html, "{}", html);
    }
    let data = record("cw", "<div><b><li></li></b></div>", "https://x/1");
    assert_eq!(make_markdown(&data), "cw\n\n<div><b><li></li></b></div>\n\nhttps://x/1");
}

#[test]
fn items_are_looked_for_in_the_parsed_document() {
    assert!(check_items_in_lists(&parse_html("<p>hi</p>"), false));
    assert!(check_items_in_lists(&parse_html("<ul><li>a<ol><li>b</li></ol></li></ul>"), false));
    assert!(check_items_in_lists(&parse_html("<menu><li><b>a</b></li></menu>"), false));
    assert!(check_items_in_lists(&parse_html("<table><tr><td><ul><li>a</li></ul></td></tr></table>"), false));
    assert!(!check_items_in_lists(&parse_html("<div><li>a</li></div>"), false));
    assert!(!check_items_in_lists(&parse_html("<ul><li><table><tr><th><li>a</li></th></tr></table></li></ul>"), false));
    assert!(check_items_in_lists(&parse_html("<li>a</li>"), true));
}
