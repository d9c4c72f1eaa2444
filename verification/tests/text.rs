use metaview::text::normalize_line_endings;

#[test]
fn line_feed_becomes_carriage_return_line_feed() {
    assert_eq!(normalize_line_endings("Hello\nWorld"), "Hello\r\nWorld");
}

#[test]
fn each_line_feed_of_a_run_is_replaced() {
    assert_eq!(normalize_line_endings("a\n\n\nb"), "a\r\n\r\n\r\nb");
    assert_eq!(normalize_line_endings("\n"), "\r\n");
    assert_eq!(normalize_line_endings("\n\n"), "\r\n\r\n");
}

#[test]
fn normalized_text_is_left_alone() {
    assert_eq!(normalize_line_endings("a\r\nb\r\n"), "a\r\nb\r\n");
    assert_eq!(normalize_line_endings("\r\n\r\n"), "\r\n\r\n");
}

#[test]
fn normalizing_twice_is_normalizing_once() {
    for text in ["", "plain", "a\nb", "a\r\nb", "\n\r\n\n", "a\r\r\nb\n", "\r", "\n\r"] {
        let once = normalize_line_endings(text);
        assert_eq!(normalize_line_endings(&once), once);
    }
}

#[test]
fn mixed_line_endings_are_all_normalized() {
    assert_eq!(normalize_line_endings("a\r\nb\nc"), "a\r\nb\r\nc");
    assert_eq!(normalize_line_endings("a\r\n\nb"), "a\r\n\r\nb");
    assert_eq!(normalize_line_endings("a\n\r\nb"), "a\r\n\r\nb");
}

#[test]
fn lone_carriage_return_is_kept() {
    assert_eq!(normalize_line_endings("a\rb"), "a\rb");
    assert_eq!(normalize_line_endings("a\r\rb"), "a\r\rb");
    assert_eq!(normalize_line_endings("a\r\r\nb"), "a\r\r\nb");
}

#[test]
fn text_without_line_feed_is_unchanged() {
    assert_eq!(normalize_line_endings(""), "");
    assert_eq!(normalize_line_endings("no line ending"), "no line ending");
    assert_eq!(normalize_line_endings("caf\u{e9} \u{ff}"), "caf\u{e9} \u{ff}");
}

#[test]
fn length_grows_by_the_number_of_bare_line_feeds() {
    let text = "one\ntwo\r\nthree\n\nfour";
    let out = normalize_line_endings(text);
    assert_eq!(out.chars().count(), text.chars().count() + 3);
    assert_eq!(out, "one\r\ntwo\r\nthree\r\n\r\nfour");
}
