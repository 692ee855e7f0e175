use federog::content::{post_timestamp, sanitize_post_content};

#[test]
fn plain_posts_are_kept() {
    assert_eq!(sanitize_post_content("Hello Feder"), "Hello Feder");
    assert_eq!(sanitize_post_content(""), "");
    assert_eq!(sanitize_post_content("\"quoted\" & 'so'"), "\"quoted\" &amp; 'so'");
}

#[test]
fn markup_in_posts_is_escaped() {
    assert_eq!(
        sanitize_post_content("<script>a && b</script>"),
        "&lt;script&gt;a &amp;&amp; b&lt;/script&gt;"
    );
    assert_eq!(sanitize_post_content("&lt;"), "&amp;lt;");
}

#[test]
fn every_line_ending_becomes_one_line_break() {
    let expected = "one<br>\ntwo";
    assert_eq!(sanitize_post_content("one\ntwo"), expected);
    assert_eq!(sanitize_post_content("one\rtwo"), expected);
    assert_eq!(sanitize_post_content("one\r\ntwo"), expected);
    assert_eq!(sanitize_post_content("a\r\n\r\nb"), "a<br>\n<br>\nb");
    assert_eq!(sanitize_post_content("a\r\r\nb"), "a<br>\n<br>\nb");
    assert_eq!(sanitize_post_content("a\n\rb"), "a<br>\n<br>\nb");
}

#[test]
fn post_times_are_published_with_one_zone_mark() {
    assert_eq!(post_timestamp("2024-01-02 03:04:05"), "2024-01-02T03:04:05Z");
    assert_eq!(post_timestamp("2024-01-02T03:04:05Z"), "2024-01-02T03:04:05Z");
    assert_eq!(post_timestamp("2024-01-02 03:04:05ZZ"), "2024-01-02T03:04:05Z");
    assert_eq!(post_timestamp(""), "Z");
    let published = post_timestamp("2024-01-02 03:04:05");
    assert_eq!(post_timestamp(&published), published);
}

#[test]
fn line_breaks_are_all_that_is_added() {
    let text = "a < b\r\nc\r\rd\n\r\n";
    let lines = "a < b\nc\n\nd\n\n";
    assert_eq!(sanitize_post_content(text), sanitize_post_content(lines));
    assert_eq!(sanitize_post_content(text).replace("<br>", ""), "a &lt; b\nc\n\nd\n\n");
}
