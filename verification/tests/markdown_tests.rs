use blog_backend::utils::markdown_to_html_safe;

#[test]
fn test_basic_markdown_rendering() {
    let markdown = "# Hello\n\nThis is **bold** text.";
    let expected_html = "<h1>Hello</h1>\n<p>This is <strong>bold</strong> text.</p>\n";
    assert_eq!(markdown_to_html_safe(markdown), expected_html);
}

#[test]
fn test_gfm_extensions_rendering() {
    let table_md = "| Head 1 | Head 2 |\n|--------|--------|\n| Cell 1 | Cell 2 |";
    let table_html = "<table>\n<thead>\n<tr>\n<th>Head 1</th>\n<th>Head 2</th>\n</tr>\n</thead>\n<tbody>\n<tr>\n<td>Cell 1</td>\n<td>Cell 2</td>\n</tr>\n</tbody>\n</table>\n";
    assert_eq!(markdown_to_html_safe(table_md), table_html);

    let strikethrough_md = "This is ~~deleted~~ text.";
    let strikethrough_html = "<p>This is <del>deleted</del> text.</p>\n";
    assert_eq!(markdown_to_html_safe(strikethrough_md), strikethrough_html);
}

#[test]
fn test_security_xss_sanitization() {
    let malicious_md = "Hello <script>alert('xss');</script> world!";
    let result = markdown_to_html_safe(malicious_md);

    assert!(!result.contains("<script"));
    assert!(!result.contains("</script>"));
    assert!(result.contains("<!-- raw HTML omitted -->"));

    let event_handler_md = "<b onclick=alert('danger')>Click me</b>";
    let event_result = markdown_to_html_safe(event_handler_md);

    assert!(!event_result.contains("<b onclick"));
    assert!(!event_result.contains("</b>"));

    assert!(event_result.contains("Click me"));
}

#[test]
fn test_security_ensures_no_dangerous_content() {
    let dangerous_inputs = vec![
        "<script>alert('xss')</script>",
        "<img src=x onerror=alert('xss')>",
        "<div onclick='alert(1)'>Click</div>",
        "<iframe src='javascript:alert(1)'></iframe>",
    ];

    for input in dangerous_inputs {
        let result = markdown_to_html_safe(input);

        assert!(!result.contains("<script>"));
        assert!(!result.contains("</script>"));
        assert!(!result.contains("<iframe"));
        assert!(!result.contains("javascript:"));

        let has_executable_handler = (result.contains("onerror=") && !result.contains("&lt;"))
            || (result.contains("onclick=") && !result.contains("&lt;"));
        assert!(
            !has_executable_handler,
            "Found executable event handler in: {}",
            result
        );

        let is_safely_processed = result.contains("<!-- raw HTML omitted -->")
            || result.contains("&lt;")
            || result.contains("&gt;");
        assert!(
            is_safely_processed,
            "Content should be safely processed: {}",
            result
        );

        println!("Input: {} -> Output: {}", input, result);
    }
}

#[test]
fn test_empty_string_input() {
    let markdown = "";
    let expected_html = "";
    assert_eq!(markdown_to_html_safe(markdown), expected_html);
}
