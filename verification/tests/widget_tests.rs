use panel_applet::widget::{webview, DrawPlan, Length, WebViewWidget};

#[test]
fn new_fills_both_axes() {
    let w = WebViewWidget::new("data:text/html,<body>X</body>");
    assert_eq!(w.width, Length::Fill);
    assert_eq!(w.height, Length::Fill);
    assert_eq!(w.url, "data:text/html,<body>X</body>");
}

#[test]
fn webview_helper_matches_new() {
    let w = webview("abc");
    assert_eq!(w.width, Length::Fill);
    assert_eq!(w.height, Length::Fill);
    assert_eq!(w.url, "abc");
}

#[test]
fn builders_set_one_axis_each() {
    let w = webview("x").width(Length::Shrink).height(Length::FillPortion(2));
    assert_eq!(w.width, Length::Shrink);
    assert_eq!(w.height, Length::FillPortion(2));
    assert_eq!(w.url, "x");
    let s = w.size();
    assert_eq!(s.width, Length::Shrink);
    assert_eq!(s.height, Length::FillPortion(2));
}

#[test]
fn draw_plan_paints_extracted_text() {
    let w = webview("data:text/html,<html><body style='x'>HELLO</body></html>");
    match w.draw_plan() {
        DrawPlan::BackgroundAndText(t) => {
            let s: String = t.into_iter().collect();
            assert_eq!(s, "HELLO");
        },
        DrawPlan::BackgroundOnly => panic!("expected text to be drawn"),
    }
}

#[test]
fn draw_plan_without_prefix_paints_background_only() {
    let w = webview("https://example.com");
    assert!(matches!(w.draw_plan(), DrawPlan::BackgroundOnly));
}

#[test]
fn draw_plan_without_close_tag_paints_background_only() {
    let w = webview("data:text/html,<html><body style='x'>HELLO</html>");
    assert!(matches!(w.draw_plan(), DrawPlan::BackgroundOnly));
}
