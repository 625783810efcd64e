use zed_haxe::text::{chars_of, join_path, split_lines, trim_str};

#[test]
fn trim_removes_unicode_white_space_at_both_ends() {
    assert_eq!(trim_str("  \t foo bar \n"), "foo bar");
    assert_eq!(trim_str("\u{3000}x\u{a0}"), "x");
    assert_eq!(trim_str("   "), "");
    assert_eq!(trim_str(""), "");
    assert_eq!(trim_str("a"), "a");
}

#[test]
fn trim_agrees_with_std() {
    for s in ["", " a ", "\u{85}b\u{2028}", "\u{200b}c", " \r\n", "x y"] {
        assert_eq!(trim_str(s), s.trim());
    }
}

#[test]
fn split_lines_agrees_with_std() {
    for s in ["", "a", "a\n", "a\nb", "a\r\nb\r\n", "a\rb", "\n\n", "x\r", "\r\n", "one\ntwo\r\n\nthree"] {
        let ours: Vec<&str> = split_lines(s);
        let theirs: Vec<&str> = s.lines().collect();
        assert_eq!(ours, theirs, "lines of {:?}", s);
    }
}

#[test]
fn chars_of_collects_every_char() {
    assert_eq!(chars_of("añb"), vec!['a', 'ñ', 'b']);
    assert_eq!(chars_of(""), Vec::<char>::new());
}

#[test]
fn join_path_inserts_one_separator() {
    assert_eq!(join_path("/work", "version.txt"), "/work/version.txt");
    assert_eq!(join_path("/work/", "version.txt"), "/work/version.txt");
    assert_eq!(join_path("", "a"), "a");
    assert_eq!(join_path("/work", "/abs"), "/abs");
}

#[test]
fn join_path_agrees_with_std_path() {
    for (a, b) in [("/w", "x"), ("/w/", "x"), ("w", "x/y"), ("/w", "/x"), ("", "x"), ("/", "x")] {
        let expected = std::path::Path::new(a).join(b).to_string_lossy().to_string();
        assert_eq!(join_path(a, b), expected);
    }
}
