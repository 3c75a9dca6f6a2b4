use mailviewer::html::escape;
use mailviewer::text::{chars_of, decimal_string, replace_all};

#[test]
fn chars_in_order() {
    assert_eq!(chars_of("aé€"), vec!['a', 'é', '€']);
    assert_eq!(chars_of(""), Vec::<char>::new());
}

#[test]
fn decimal_numbers() {
    assert_eq!(decimal_string(0), "0");
    assert_eq!(decimal_string(7), "7");
    assert_eq!(decimal_string(10), "10");
    assert_eq!(decimal_string(1234), "1234");
    assert_eq!(decimal_string(usize::MAX), usize::MAX.to_string());
}

#[test]
fn replace_every_occurrence() {
    assert_eq!(replace_all("{total} of {total}", "{total}", "3"), "3 of 3");
    assert_eq!(replace_all("nothing", "{total}", "3"), "nothing");
    assert_eq!(replace_all("aaa", "aa", "b"), "ba");
    assert_eq!(replace_all("", "x", "y"), "");
}

#[test]
fn replace_matches_std() {
    for (s, p, w) in [("abcabc", "bc", "X"), ("xxxx", "xx", "xx"), ("héhé", "é", "e"), ("ab", "abc", "z")] {
        assert_eq!(replace_all(s, p, w), s.replace(p, w));
    }
}

#[test]
fn escape_markup() {
    assert_eq!(escape("<b>\"a\" & 'b'</b>"), "&lt;b&gt;&quot;a&quot; &amp; &#39;b&#39;&lt;/b&gt;");
    assert_eq!(escape("plain text"), "plain text");
    assert_eq!(escape(""), "");
}

#[test]
fn escaped_text_has_no_markup() {
    let e = escape("<script>alert('x')</script>");
    assert!(!e.contains('<') && !e.contains('>') && !e.contains('\'') && !e.contains('"'));
}
