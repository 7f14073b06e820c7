use panel_applet::extract::{chars_vec, extract_body_text, find_from};

fn cv(s: &str) -> Vec<char> {
    chars_vec(s)
}

#[test]
fn no_prefix_yields_no_text() {
    assert_eq!(extract_body_text(&cv("<html><body>X</body></html>")), None);
    assert_eq!(extract_body_text(&cv("http://example.com")), None);
    assert_eq!(extract_body_text(&cv("")), None);
    // Prefix must match exactly, from the start.
    assert_eq!(extract_body_text(&cv(" data:text/html,<body>X</body>")), None);
    assert_eq!(extract_body_text(&cv("data:text/plain,<body>X</body>")), None);
}

#[test]
fn simple_body_text_is_extracted() {
    let out = extract_body_text(&cv("data:text/html,<html><body style='x'>HELLO</body></html>"));
    assert_eq!(out, Some(cv("HELLO")));
}

#[test]
fn missing_close_tag_yields_no_text() {
    let out = extract_body_text(&cv("data:text/html,<html><body style='x'>HELLO</html>"));
    assert_eq!(out, None);
}

#[test]
fn missing_body_open_yields_no_text() {
    assert_eq!(extract_body_text(&cv("data:text/html,<html>HELLO</html>")), None);
}

#[test]
fn missing_tag_end_yields_no_text() {
    assert_eq!(extract_body_text(&cv("data:text/html,<html><body")), None);
}

#[test]
fn gt_inside_attribute_truncates_mid_attribute() {
    // The scan takes the first `>` after `<body`, even inside a quoted
    // attribute value, so the "text" starts mid-attribute.
    let out = extract_body_text(&cv("data:text/html,<html><body data-x='a>b'>TEXT</body></html>"));
    assert_eq!(out, Some(cv("b'>TEXT")));
}

#[test]
fn empty_body_yields_empty_text() {
    let out = extract_body_text(&cv("data:text/html,<body></body>"));
    assert_eq!(out, Some(Vec::new()));
}

#[test]
fn non_ascii_text_is_extracted() {
    let out = extract_body_text(&cv("data:text/html,<body>\u{2193}125MB/s</body>"));
    assert_eq!(out, Some(cv("\u{2193}125MB/s")));
}

#[test]
fn find_from_returns_first_occurrence_at_or_after_start() {
    let s = cv("abcabc");
    let pat = cv("abc");
    assert_eq!(find_from(&s, &pat, 0), Some(0));
    assert_eq!(find_from(&s, &pat, 1), Some(3));
    assert_eq!(find_from(&s, &pat, 4), None);
    assert_eq!(find_from(&s, &cv("zzz"), 0), None);
    assert_eq!(find_from(&s, &cv(""), 2), Some(2));
}

#[test]
fn chars_vec_matches_std_chars() {
    let s = "h\u{e9}llo \u{2193} world";
    let expected: Vec<char> = s.chars().collect();
    assert_eq!(chars_vec(s), expected);
}
