use glint::document::{split_lines, split_title};

fn title_and_body_by_std(doc: &str) -> (String, String) {
    let mut lines = doc.lines();
    let first = lines.next().unwrap_or("Glint");
    let title = first.trim_start_matches('#').trim().to_string();
    let body = lines.collect::<Vec<&str>>().join("\n");
    (title, body)
}

#[test]
fn title_is_first_line_without_hashes() {
    let (title, body) = split_title("# Hello\nworld");
    assert_eq!(title, "Hello");
    assert_eq!(body, "world");
}

#[test]
fn empty_document_gets_fallback_title() {
    let (title, body) = split_title("");
    assert_eq!(title, "Glint");
    assert_eq!(body, "");
}

#[test]
fn document_of_one_line_feed_has_empty_title() {
    let (title, body) = split_title("\n");
    assert_eq!(title, "");
    assert_eq!(body, "");
}

#[test]
fn hashes_are_stripped_before_white_space() {
    let (title, _) = split_title("##  Two words  \nrest");
    assert_eq!(title, "Two words");
    let (title, _) = split_title("  # kept hash\nrest");
    assert_eq!(title, "# kept hash");
    let (title, _) = split_title("#\u{a0}\u{3000}wide\u{2003}\t\nrest");
    assert_eq!(title, "wide");
}

#[test]
fn body_lines_are_rejoined_with_line_feeds() {
    let (_, body) = split_title("t\r\na\r\nb\r\n");
    assert_eq!(body, "a\nb");
    let (_, body) = split_title("t\na\n\nb\n\n");
    assert_eq!(body, "a\n\nb\n");
}

#[test]
fn bare_carriage_return_stays_in_its_line() {
    let (title, body) = split_title("a\rb\nc\r");
    assert_eq!(title, "a\rb");
    assert_eq!(body, "c\r");
}

#[test]
fn split_title_agrees_with_std_lines() {
    let docs = [
        "",
        "\n",
        "\r\n",
        "\r",
        "x",
        "x\r",
        "x\r\n",
        "# Hello\nworld",
        "### Deep\n\n- a\n- b\n",
        "title\n\n\n",
        "title\r\n\r\nbody\r\r\nlast\r",
        "  spaced  \n  body  ",
        "#\n#\n#",
        "no newline at end\nsecond",
        "\u{2728} star\n\u{1f427} bird\n",
    ];
    for doc in docs {
        let (title, body) = split_title(doc);
        let (want_title, want_body) = title_and_body_by_std(doc);
        assert_eq!(title, want_title, "title of {:?}", doc);
        assert_eq!(body, want_body, "body of {:?}", doc);
    }
}

#[test]
fn split_lines_agrees_with_std_lines() {
    let docs = ["", "a", "a\n", "a\nb", "a\r\nb\r\n", "\n\n", "a\r", "\r\n\r\n", "a\n\r\nb"];
    for doc in docs {
        let want: Vec<String> = doc.lines().map(|line| line.to_string()).collect();
        assert_eq!(split_lines(doc), want, "lines of {:?}", doc);
    }
}

#[test]
fn split_lines_drops_line_endings() {
    assert_eq!(split_lines("ab\ncd\r\nef"), vec!["ab".to_string(), "cd".to_string(), "ef".to_string()]);
    assert_eq!(split_lines(""), Vec::<String>::new());
    assert_eq!(split_lines("\n"), vec![String::new()]);
}
