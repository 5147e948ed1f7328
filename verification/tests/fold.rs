use cargo_readme::readme::fold_data;
use cargo_readme::text::{
    contains_str, count, is_blank_str, is_whitespace, join, replace_all, rfind, starts_with,
    strip_end, to_chars, trim_end_str,
};

#[test]
fn doc_fold_data_empty_input() {
    let input: Vec<String> = vec![];

    let result = fold_data(input);

    assert!(result.is_empty());
}

#[test]
fn doc_fold_data_single_line() {
    let line = "# single line";
    let input: Vec<String> = vec![line.to_owned()];

    let result = fold_data(input);

    assert_eq!(line, result);
}

#[test]
fn doc_fold_data_multiple_lines() {
    let input: Vec<String> = vec![
        "# first line".to_owned(),
        "second line".to_owned(),
        "third line".to_owned(),
    ];

    let result = fold_data(input);

    assert_eq!("# first line\nsecond line\nthird line", result);
}

#[test]
fn mod_fold_data_empty_input() {
    let input: Vec<String> = vec![];

    let result = fold_data(input);

    assert!(result.is_empty());
}

#[test]
fn mod_fold_data_single_line() {
    let line = "# single line";
    let input: Vec<String> = vec![line.to_owned()];

    let result = fold_data(input);

    assert_eq!(line, result);
}

#[test]
fn mod_fold_data_multiple_lines() {
    let input: Vec<String> = vec![
        "# first line".to_owned(),
        "second line".to_owned(),
        "third line".to_owned(),
    ];

    let result = fold_data(input);

    assert_eq!("# first line\nsecond line\nthird line", result);
}

#[test]
fn fold_keeps_empty_lines() {
    let input = vec!["a".to_owned(), "".to_owned(), "".to_owned(), "b".to_owned()];
    assert_eq!(fold_data(input), "a\n\n\nb");
    assert_eq!(fold_data(vec!["".to_owned()]), "");
    assert_eq!(fold_data(vec!["".to_owned(), "".to_owned()]), "\n");
}

#[test]
fn join_uses_the_separator() {
    let input = vec!["a".to_owned(), "b".to_owned(), "c".to_owned()];
    assert_eq!(join(&input, ", "), "a, b, c");
    assert_eq!(join(&Vec::new(), ", "), "");
}

#[test]
fn whitespace_follows_unicode() {
    for c in [' ', '\t', '\n', '\r', '\u{0B}', '\u{0C}', '\u{85}', '\u{A0}', '\u{1680}', '\u{2000}',
        '\u{200A}', '\u{2028}', '\u{2029}', '\u{202F}', '\u{205F}', '\u{3000}']
    {
        assert!(is_whitespace(c));
        assert!(c.is_whitespace());
    }
    for c in ['a', '#', '\u{200B}', '\u{08}', '\u{0E}', '\u{1F}', '\u{2007}', '\u{FEFF}'] {
        assert_eq!(is_whitespace(c), c.is_whitespace());
    }
    for n in 0..0x3100u32 {
        if let Some(c) = char::from_u32(n) {
            assert_eq!(is_whitespace(c), c.is_whitespace());
        }
    }
}

#[test]
fn text_primitives_agree_with_std() {
    let samples = ["", " ", "abc", "  abc \t ", "a*/b*/", "/*/*/", "{{x}}{{x}}", "aaa", "é ü\u{A0}"];
    let patterns = ["a", "*/", "/*", "{{x}}", "aa", " ", "é", "zz"];
    for s in samples {
        assert_eq!(to_chars(s), s.chars().collect::<Vec<_>>());
        assert_eq!(trim_end_str(s), s.trim_end());
        assert_eq!(is_blank_str(s), s.trim().is_empty());
        assert_eq!(strip_end(s, '\n'), s.trim_end_matches('\n'));
        for p in patterns {
            assert_eq!(starts_with(s, p), s.starts_with(p));
            assert_eq!(contains_str(s, p), s.contains(p));
            assert_eq!(replace_all(s, p, "<>"), s.replace(p, "<>"));
            assert_eq!(count(&to_chars(s), &to_chars(p)), s.matches(p).count());
            let last = s.rfind(p).map(|b| s[..b].chars().count());
            assert_eq!(rfind(&to_chars(s), &to_chars(p)), last);
        }
    }
}

#[test]
fn empty_pattern_changes_nothing() {
    assert_eq!(replace_all("abc", "", "x"), "abc");
    assert_eq!(count(&to_chars("abc"), &Vec::new()), 0);
    assert!(contains_str("abc", ""));
    assert!(starts_with("abc", ""));
}

#[test]
fn strip_end_takes_only_line_breaks() {
    assert_eq!(strip_end("tpl\n\n", '\n'), "tpl");
    assert_eq!(strip_end("tpl \n", '\n'), "tpl ");
    assert_eq!(strip_end("\n\n", '\n'), "");
}
