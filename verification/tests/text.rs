use kdeconnect::text::{
    chars_of, decimal_string, decimal_string_unsigned, join_path, line_ranges, trim_str,
    word_ranges,
};

#[test]
fn decimal_rendering_matches_display() {
    for n in [0i64, 7, 10, 42, -1, -42, 1_000_000, i64::MAX, i64::MIN] {
        assert_eq!(decimal_string(n), n.to_string());
    }
    for n in [0u64, 9, 22, 65535, u64::MAX] {
        assert_eq!(decimal_string_unsigned(n), n.to_string());
    }
}

#[test]
fn trimming_matches_str_trim() {
    for s in ["", "   ", "true", "  true\n", "\ttrue \r\n", "a b", "\u{3000}x\u{a0}", " \u{85}y z\u{2028}"] {
        assert_eq!(trim_str(s), s.trim());
    }
}

#[test]
fn chars_in_order() {
    assert_eq!(chars_of("héllo"), vec!['h', 'é', 'l', 'l', 'o']);
    assert!(chars_of("").is_empty());
}

#[test]
fn words_match_split_whitespace() {
    for s in ["", "a", "  a  b\tc ", "one two", "x\u{2003}y"] {
        let cs = chars_of(s);
        let ranges = word_ranges(&cs, 0, cs.len());
        let got: Vec<String> = ranges.iter().map(|&(a, b)| cs[a..b].iter().collect()).collect();
        let want: Vec<String> = s.split_whitespace().map(|w| w.to_string()).collect();
        assert_eq!(got, want);
    }
}

#[test]
fn line_pieces_split_on_line_feeds() {
    let cs = chars_of("a b\nc\n\nd");
    let ranges = line_ranges(&cs);
    let got: Vec<String> = ranges.iter().map(|&(a, b)| cs[a..b].iter().collect()).collect();
    assert_eq!(got, vec!["a b", "c", "", "d"]);
    let trailing = chars_of("x\n");
    assert_eq!(line_ranges(&trailing).len(), 2);
}

#[test]
fn path_joining_follows_path_join() {
    assert_eq!(join_path("/run/user/1000", "kdeconnect-sftp"), "/run/user/1000/kdeconnect-sftp");
    assert_eq!(join_path("/tmp/", "x"), "/tmp/x");
    assert_eq!(join_path("", "x"), "x");
    assert_eq!(join_path("/tmp", "/abs"), "/abs");
    assert_eq!(join_path("/tmp", ""), "/tmp/");
}
