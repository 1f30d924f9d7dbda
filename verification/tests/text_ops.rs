use ency_audit_toolkit::http_status::header_text_or_empty_chars;
use ency_audit_toolkit::text::{
    chars_of, contains_str, equals_str, join_strings, replace_str, split_lines,
    starts_with_str, trim_end_matches_char, trim_matches_char, trim_str,
};

#[test]
fn trim_matches_std_on_unicode_white_space() {
    let samples = ["  a b  ", "\t\u{3000}x\u{2029}", "", "   ", "\u{85}y\u{a0}", "no-space"];
    for s in samples {
        assert_eq!(trim_str(s), s.trim());
    }
}

#[test]
fn trim_matches_char_strips_both_ends() {
    assert_eq!(trim_matches_char("\"\"v=spf1 -all\"", '"'), "v=spf1 -all");
    assert_eq!(trim_matches_char("\"\"\"", '"'), "");
    assert_eq!(trim_end_matches_char("example.com...", '.'), "example.com");
    assert_eq!(trim_end_matches_char(".com", '.'), ".com");
}

#[test]
fn split_lines_agrees_with_str_lines() {
    let samples = ["", "a", "a\n", "a\n\nb", "\n", "a\r\nb\r\n", "a\r", "x\ny\rz\n\r\n", "\r\n\r\n"];
    for s in samples {
        let expected: Vec<String> = s.lines().map(|l| l.to_string()).collect();
        assert_eq!(split_lines(s), expected, "input {:?}", s);
    }
}

#[test]
fn replace_agrees_with_str_replace() {
    let samples = [
        "https://a.test/?next=https://b.test",
        "no scheme here",
        "https://https://",
        "xhttps:/https://",
    ];
    for s in samples {
        assert_eq!(replace_str(s, "https://", "http://"), s.replace("https://", "http://"));
    }
}

#[test]
fn join_with_separator() {
    let parts = vec!["a".to_string(), "bc".to_string(), "".to_string()];
    assert_eq!(join_strings(&parts, ", "), "a, bc, ");
    assert_eq!(join_strings(&Vec::new(), " "), "");
    assert_eq!(join_strings(&vec!["only".to_string()], " "), "only");
}

#[test]
fn searching_and_comparing() {
    assert!(contains_str("v=spf1 include:x ~all", "~all"));
    assert!(!contains_str("v=spf1", "v=spf1 "));
    assert!(contains_str("anything", ""));
    assert!(starts_with_str("v=DMARC1; p=none", "v=DMARC1"));
    assert!(!starts_with_str("v=DMARC1; p=none", "v=dmarc1"));
    assert!(equals_str("dns", "dns"));
    assert!(!equals_str("dns", "dnss"));
    assert_eq!(chars_of("añb"), vec!['a', 'ñ', 'b']);
}

#[test]
fn header_values_as_text() {
    assert_eq!(header_text_or_empty_chars(&b"nosniff".to_vec()), vec!['n', 'o', 's', 'n', 'i', 'f', 'f']);
    assert_eq!(header_text_or_empty_chars(&vec![b'a', b'\t', b'b']), vec!['a', '\t', 'b']);
    assert_eq!(header_text_or_empty_chars(&vec![b'a', 0x80]), Vec::<char>::new());
    assert_eq!(header_text_or_empty_chars(&vec![b'a', 0x7f]), Vec::<char>::new());
}
