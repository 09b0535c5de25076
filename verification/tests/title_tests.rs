use readlater::title::{resolve_title, trim_whitespace};

#[test]
fn title_element_text_is_returned() {
    let page = "<html><head><title>Hello World</title></head><body><p>x</p></body></html>";
    assert_eq!(resolve_title(page), "Hello World");
}

#[test]
fn missing_title_gives_placeholder() {
    let page = "<html><head></head><body><h1>Not the title</h1></body></html>";
    assert_eq!(resolve_title(page), "Untitled");
}

#[test]
fn first_title_element_wins() {
    let page = "<html><head><title>First</title><title>Second</title></head></html>";
    assert_eq!(resolve_title(page), "First");
}

#[test]
fn resolved_title_is_trimmed() {
    let page = "<html><head><title>\n   Spaced Out \t</title></head></html>";
    assert_eq!(resolve_title(page), "Spaced Out");
}

#[test]
fn trim_whitespace_exact() {
    assert_eq!(trim_whitespace("  a b  "), "a b");
    assert_eq!(trim_whitespace("a"), "a");
    assert_eq!(trim_whitespace("   \t\r\n"), "");
    assert_eq!(trim_whitespace(""), "");
    assert_eq!(trim_whitespace("\tword"), "word");
    assert_eq!(trim_whitespace("word\n"), "word");
}

#[test]
fn trim_whitespace_covers_unicode_whitespace() {
    assert_eq!(trim_whitespace("\u{a0}word\u{a0}"), "word");
    assert_eq!(trim_whitespace("\u{c}word\u{85}"), "word");
    assert_eq!(trim_whitespace("\u{2003}word\u{3000}"), "word");
    assert_eq!(trim_whitespace("a\u{a0}b"), "a\u{a0}b");
    for s in ["  a  ", "\u{2028}a\u{2029}", "\u{1680}a\u{205f}", "\u{202f}a"].iter() {
        assert_eq!(trim_whitespace(s), s.trim());
    }
}
