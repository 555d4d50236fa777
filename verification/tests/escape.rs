use glint::escape::{escape_text, push_escaped};

#[test]
fn reserved_characters_become_named_references() {
    assert_eq!(escape_text("<a & b>"), "&lt;a &amp; b&gt;");
    assert_eq!(escape_text("'single' \"double\""), "&apos;single&apos; &quot;double&quot;");
}

#[test]
fn plain_text_is_unchanged() {
    assert_eq!(escape_text(""), "");
    assert_eq!(escape_text("plain text 123"), "plain text 123");
    assert_eq!(escape_text("tab\tfeed\nreturn\r"), "tab\tfeed\nreturn\r");
    assert_eq!(escape_text("\u{2728} \u{1f427} \u{e9}"), "\u{2728} \u{1f427} \u{e9}");
}

#[test]
fn control_characters_become_hexadecimal_references() {
    assert_eq!(escape_text("\u{1}"), "&#x1;");
    assert_eq!(escape_text("\u{8}"), "&#x8;");
    assert_eq!(escape_text("\u{b}\u{c}"), "&#xb;&#xc;");
    assert_eq!(escape_text("\u{e}\u{1f}"), "&#xe;&#x1f;");
    assert_eq!(escape_text("\u{7f}\u{80}\u{84}"), "&#x7f;&#x80;&#x84;");
    assert_eq!(escape_text("\u{86}\u{9f}"), "&#x86;&#x9f;");
}

#[test]
fn next_line_and_no_break_space_stand_for_themselves() {
    assert_eq!(escape_text("\u{85}"), "\u{85}");
    assert_eq!(escape_text("\u{a0}"), "\u{a0}");
    assert_eq!(escape_text("\u{0}"), "\u{0}");
}

#[test]
fn already_escaped_text_is_escaped_again() {
    assert_eq!(escape_text("&amp;"), "&amp;amp;");
}

#[test]
fn push_escaped_appends() {
    let mut out = String::from("x");
    push_escaped(&mut out, '<');
    push_escaped(&mut out, 'y');
    assert_eq!(out, "x&lt;y");
}

#[test]
fn escaped_text_holds_no_bare_markup() {
    let out = escape_text("<b>bold</b> & 'q' \"d\" \u{1b}[0m");
    assert!(!out.contains('<'));
    assert!(!out.contains('>'));
    assert!(!out.contains('\''));
    assert!(!out.contains('"'));
    for (i, _) in out.match_indices('&') {
        let rest = &out[i..];
        assert!(
            rest.starts_with("&amp;") || rest.starts_with("&lt;") || rest.starts_with("&gt;")
                || rest.starts_with("&apos;") || rest.starts_with("&quot;")
                || rest.starts_with("&#x")
        );
    }
}
