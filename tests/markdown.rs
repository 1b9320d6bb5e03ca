use static_site::markdown::parse_markdown;

#[test]
fn test_parse_markdown_header() {
    let markdown_content = "# Hello, World!";
    let html_output = parse_markdown(markdown_content);

    assert_eq!(html_output, "<h1>Hello, World!</h1>\n");
}

#[test]
fn test_parse_markdown_paragraph() {
    let markdown_content = "This is a paragraph.";
    let html_output = parse_markdown(markdown_content);

    assert_eq!(html_output, "<p>This is a paragraph.</p>\n");
}

#[test]
fn test_parse_markdown_link() {
    let markdown_content = "[Rust website](https://www.rust-lang.org/)";
    let html_output = parse_markdown(markdown_content);

    assert_eq!(html_output, "<p><a href=\"https://www.rust-lang.org/\">Rust website</a></p>\n");
}

#[test]
fn markdown_link_to_example() {
    assert_eq!(
        parse_markdown("[Text](http://example.com/)"),
        "<p><a href=\"http://example.com/\">Text</a></p>\n"
    );
}

#[test]
fn markdown_empty_input_gives_empty_html() {
    assert_eq!(parse_markdown(""), "");
}

#[test]
fn markdown_malformed_input_still_renders() {
    assert_eq!(parse_markdown("[unclosed"), "<p>[unclosed</p>\n");
    assert_eq!(parse_markdown("*open emphasis"), "<p>*open emphasis</p>\n");
}

#[test]
fn markdown_skips_yaml_metadata_block() {
    let html = parse_markdown("---\ntitle: x\n---\n# Body\n");
    assert_eq!(html, "<h1>Body</h1>\n");
}
