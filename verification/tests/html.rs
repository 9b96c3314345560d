use oliver_explorer::html::flatten_text;
use oliver_explorer::html::join_text;
use oliver_explorer::html::parse_html;
use oliver_explorer::html::MAX_DOCUMENT_LENGTH;
use oliver_explorer::state::AppSettings;
use oliver_explorer::state::SearchError;
use oliver_explorer::state::Tab;
use std::sync::Arc;

#[test]
fn test_parse_html_basic() {
    let html = r#"
            <!DOCTYPE html>
            <html>
                <head>
                    <title>Test Page</title>
                </head>
                <body>
                    Hello World
                </body>
            </html>
        "#;

    let result = parse_html(html).unwrap();
    assert_eq!(result.trim(), "Hello World");
}

#[test]
fn test_parse_html_with_nested_elements() {
    let html = r#"
            <!DOCTYPE html>
            <html>
                <head>
                    <title>Test Page</title>
                </head>
                <body>
                    <div>
                        <p>First paragraph</p>
                        <p>Second <strong>paragraph</strong></p>
                    </div>
                    <div>
                        <span>Additional text</span>
                    </div>
                </body>
            </html>
        "#;

    let result = parse_html(html).unwrap();
    let normalized_result = result.split_whitespace().collect::<Vec<_>>().join(" ");

    assert_eq!(
        normalized_result,
        "First paragraph Second paragraph Additional text"
    );
}

#[test]
fn test_parse_html_empty_body() {
    let html = r#"
            <!DOCTYPE html>
            <html>
                <head>
                    <title>Empty Page</title>
                </head>
                <body></body>
            </html>
        "#;

    let result = parse_html(html).unwrap();
    assert_eq!(result.trim(), "");
}

#[test]
fn test_parse_html_no_body() {
    let html = r#"
            <!DOCTYPE html>
            <html>
                <head>
                    <title>No Body Page</title>
                </head>
            </html>
        "#;

    let result = parse_html(html).unwrap();
    assert_eq!(result.trim(), "");
}

#[test]
fn test_parse_html_with_comments() {
    let html = r#"
            <!DOCTYPE html>
            <html>
                <head>
                    <title>Test Page</title>
                </head>
                <body>
                    <!-- This is a comment -->
                    <p>Visible text</p>
                    <!-- Another comment -->
                </body>
            </html>
        "#;

    let result = parse_html(html).unwrap();
    assert_eq!(result.trim(), "Visible text");
}

#[test]
fn parse_html_joins_text_nodes_with_single_spaces() {
    let result = parse_html("<html><body><p>one</p><p>two</p><b>three</b></body></html>").unwrap();
    assert_eq!(result, "one two three");
}

#[test]
fn parse_html_leaves_the_head_out() {
    let result =
        parse_html("<html><head><title>Title</title></head><body><h1>Hello</h1></body></html>")
            .unwrap();
    assert_eq!(result, "Hello");
}

#[test]
fn parse_html_of_plain_text_is_the_text() {
    assert_eq!(parse_html("just text").unwrap(), "just text");
    assert_eq!(parse_html("").unwrap(), "");
}

#[test]
fn join_text_exact_values() {
    let none: Vec<String> = Vec::new();
    assert_eq!(join_text(&none, " "), "");
    assert_eq!(join_text(&vec!["one".to_string()], " "), "one");
    assert_eq!(
        join_text(&vec!["one".to_string(), "two".to_string()], " "),
        "one two"
    );
    assert_eq!(
        join_text(
            &vec!["a".to_string(), String::new(), "b".to_string()],
            ", "
        ),
        "a, , b"
    );
}

#[test]
fn flatten_text_keeps_the_order() {
    assert_eq!(flatten_text(Vec::new()), Vec::<String>::new());
    assert_eq!(
        flatten_text(vec![
            vec!["a".to_string(), "b".to_string()],
            Vec::new(),
            vec!["c".to_string()],
        ]),
        vec!["a".to_string(), "b".to_string(), "c".to_string()]
    );
    assert_eq!(
        flatten_text(vec![Vec::new(), Vec::new()]),
        Vec::<String>::new()
    );
}

#[test]
fn parse_html_keeps_the_white_space_of_the_text_nodes() {
    let result = parse_html("<html><body> a <i> b </i></body></html>").unwrap();
    assert_eq!(result, " a   b ");
}

#[test]
fn parse_html_reads_entities_and_nested_markup() {
    let result =
        parse_html("<body><div><p>1 &lt; 2</p><ul><li>x</li><li>y</li></ul></div></body>").unwrap();
    assert_eq!(result, "1 < 2 x y");
}

#[test]
fn parse_html_takes_whatever_it_is_given() {
    assert_eq!(parse_html("<<<>>>").unwrap().trim(), "<<<>>>");
    assert_eq!(parse_html("<body><p>unclosed").unwrap(), "unclosed");
    assert_eq!(parse_html("</body></html>after").unwrap(), "after");
    assert_eq!(
        parse_html("<script>var x = 1;</script><body>seen</body>").unwrap(),
        "seen"
    );
}

#[test]
fn a_document_beyond_the_limit_is_refused() {
    assert_eq!(MAX_DOCUMENT_LENGTH, 1 << 27);
    let document = "a".repeat(MAX_DOCUMENT_LENGTH + 1);
    match parse_html(&document) {
        Err(e) => assert_eq!(e.message, "document too long"),
        Ok(_) => panic!("expected a refusal"),
    }

    // A search that fetched such a document reports it and changes nothing.
    let mut tab = Tab::new(
        0,
        Arc::new(AppSettings::default()),
        Ok("<body>kept</body>".to_string()),
    );
    tab.search_buffer = "http://example.com".to_string();
    match tab.search(Ok(document)) {
        Err(SearchError::ParseFailed(detail)) => assert_eq!(detail, "document too long"),
        other => panic!("unexpected {:?}", other),
    }
    assert_eq!(tab.content, "kept");
    assert_eq!(tab.url, "http://localhost:3333/");
}

#[test]
fn the_limit_counts_characters_not_bytes() {
    // Far below the limit in characters, whatever the bytes.
    assert_eq!(parse_html(&"日".repeat(1000)).unwrap(), "日".repeat(1000));
}
