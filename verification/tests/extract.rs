use cargo_readme::extract::{normalize_line, strip_docs, DocExtract, DocExtractor};
use cargo_readme::load::load_docs;
use cargo_readme::process::{process_docs, DocProcess};
use cargo_readme::readme::{extract_docs, ReadmeError};
use cargo_readme::load::LoadError;

fn lines_of(text: &str) -> Vec<String> {
    text.lines().map(|l| l.to_string()).collect()
}

const INPUT_SINGLELINE: &str = r#"//! first line
//!
//! ```
//! let rust_code = "safe";
//! ```
//!
//! ```C
//! int i = 0; // no rust code
//! ```"#;

const INPUT_MULTILINE: &str = r#"/*!
first line

```
let rust_code = "safe";
```

```C
int i = 0; // no rust code
```
*/"#;

const EXPECTED: &str = r#"first line

```
let rust_code = "safe";
```

```C
int i = 0; // no rust code
```"#;

#[test]
fn extract_single_line() {
    let input: Vec<_> = INPUT_SINGLELINE.lines().map(|x| x.to_owned()).collect();
    let expected: Vec<_> = EXPECTED.lines().collect();

    let result: Vec<_> = DocExtractor::new(input).unwrap().collect();

    assert_eq!(result, expected);
}

#[test]
fn extract_multi_line() {
    let input: Vec<_> = INPUT_MULTILINE.lines().map(|x| x.to_owned()).collect();
    let expected: Vec<_> = EXPECTED.lines().collect();

    let result: Vec<_> = DocExtractor::new(input).unwrap().collect();

    assert_eq!(result, expected);
}

const INPUT: &str = r#"//! first line
//! ```
//! let rust_code = "will show";
//! # let binding = "won't show";
//! ```
//! # heading
//! ```no_run
//! let no_run = true;
//! ```
//! ```ignore
//! let ignore = true;
//! ```
//! ```should_panic
//! let should_panic = true;
//! ```
//! # heading
//! ```C
//! int i = 0; // no rust code
//! ```
use std::any::Any;

fn main() {}"#;

const INPUT_BLOCK: &str = r#"/*!
first line
```
let rust_code = "will show";
# let binding = "won't show";
```
# heading
```no_run
let no_run = true;
```
```ignore
let ignore = true;
```
```should_panic
let should_panic = true;
```
# heading
```C
int i = 0; // no rust code
```
*/
use std::any::Any;

fn main() {}"#;

const INPUT_STRIPPED: &str = r#"first line
```
let rust_code = "will show";
# let binding = "won't show";
```
# heading
```no_run
let no_run = true;
```
```ignore
let ignore = true;
```
```should_panic
let should_panic = true;
```
# heading
```C
int i = 0; // no rust code
```"#;

const EXPECT_INDENT_HEADING: &str = r#"first line
```rust
let rust_code = "will show";
```
## heading
```rust
let no_run = true;
```
```rust
let ignore = true;
```
```rust
let should_panic = true;
```
## heading
```C
int i = 0; // no rust code
```"#;

const EXPECT_NO_INDENT_HEADING: &str = r#"first line
```rust
let rust_code = "will show";
```
# heading
```rust
let no_run = true;
```
```rust
let ignore = true;
```
```rust
let should_panic = true;
```
# heading
```C
int i = 0; // no rust code
```"#;

#[test]
fn doc_extract_indent_headings() {
    let doc_data = extract_docs(&lines_of(INPUT), true).unwrap();
    assert_eq!(doc_data, EXPECT_INDENT_HEADING);
}

#[test]
fn doc_extract_no_indent_headings() {
    let doc_data = extract_docs(&lines_of(INPUT), false).unwrap();
    assert_eq!(doc_data, EXPECT_NO_INDENT_HEADING);
}

fn extract_doc(input: &str, indent_headings: bool) -> Vec<String> {
    process_docs(DocExtractor::new(lines_of(input)).unwrap().collect(), indent_headings).unwrap()
}

#[test]
fn extractor_extract_indent_headings() {
    let expected: Vec<_> = EXPECT_INDENT_HEADING.lines().collect();
    assert_eq!(extract_doc(INPUT, true), expected);
}

#[test]
fn extractor_extract_no_indent_headings() {
    let expected: Vec<_> = EXPECT_NO_INDENT_HEADING.lines().collect();
    assert_eq!(extract_doc(INPUT, false), expected);
}

#[test]
fn extract_multiline_indent_headings() {
    let expected: Vec<_> = EXPECT_INDENT_HEADING.lines().collect();
    assert_eq!(extract_doc(INPUT_BLOCK, true), expected);
}

#[test]
fn extract_multiline_no_indent_headings() {
    let expected: Vec<_> = EXPECT_NO_INDENT_HEADING.lines().collect();
    assert_eq!(extract_doc(INPUT_BLOCK, false), expected);
}

#[test]
fn indent_headings() {
    let expected: Vec<_> = EXPECT_INDENT_HEADING.lines().collect();
    let result = process_docs(lines_of(INPUT_STRIPPED), true).unwrap();
    assert_eq!(result, expected);
}

#[test]
fn no_indent_headings() {
    let expected: Vec<_> = EXPECT_NO_INDENT_HEADING.lines().collect();
    let result = process_docs(lines_of(INPUT_STRIPPED), false).unwrap();
    assert_eq!(result, expected);
}

const EXPECTED_LINES: &[&str] = &[
    "first line",
    "",
    "```",
    "let rust_code = \"safe\";",
    "```",
    "",
    "```C",
    "int i = 0; // no rust code",
    "```",
];

const EXPECTED_DOCS: &[&str] = &[
    "first line",
    "",
    "```rust",
    "let rust_code = \"safe\";",
    "```",
    "",
    "```C",
    "int i = 0; // no rust code",
    "```",
];

#[test]
fn extract_docs_singleline_style() {
    let input = format!("{}\nuse std::any::Any;\nfn main() {{}}\n", INPUT_SINGLELINE);
    let raw = load_docs(&lines_of(&input)).unwrap();
    assert_eq!(strip_docs(&raw), EXPECTED_LINES);
    let result = extract_docs(&lines_of(&input), false).unwrap();
    assert_eq!(result, EXPECTED_DOCS.join("\n"));
}

#[test]
fn extract_docs_multiline_style() {
    let input = format!("{}\nuse std::any::Any;\nfn main() {{}}\n", INPUT_MULTILINE);
    let raw = load_docs(&lines_of(&input)).unwrap();
    assert_eq!(strip_docs(&raw), EXPECTED_LINES);
    let result = extract_docs(&lines_of(&input), false).unwrap();
    assert_eq!(result, EXPECTED_DOCS.join("\n"));
}

#[test]
fn extract_docs_mix_styles_singleline() {
    let input = lines_of("//! singleline\n/*!\nmultiline\n*/\n");
    let result = extract_docs(&input, false);
    assert_eq!(result, Err(ReadmeError::Load(LoadError::MixedCommentStyle)));
}

#[test]
fn extract_docs_mix_styles_multiline() {
    let input = lines_of("/*!\nmultiline\n*/\n//! singleline\n");
    let result = extract_docs(&input, false).unwrap();
    assert_eq!(result, "multiline");
}

#[test]
fn extract_docs_nested_level_1() {
    let input = lines_of("/*!\nlevel 0\n/*\nlevel 1\n*/\nlevel 0\n*/\nfn main() {}\n");
    let expected = ["level 0", "/*", "level 1", "*/", "level 0"];
    let result = extract_docs(&input, false).unwrap();
    assert_eq!(result, expected.join("\n"));
}

#[test]
fn extract_docs_nested_level_2() {
    let input = lines_of(
        "/*!\nlevel 0\n/*\nlevel 1\n/*\nlevel 2\n*/\nlevel 1\n*/\nlevel 0\n*/\nfn main() {}\n",
    );
    let expected =
        ["level 0", "/*", "level 1", "/*", "level 2", "*/", "level 1", "*/", "level 0"];
    let result = extract_docs(&input, false).unwrap();
    assert_eq!(result, expected.join("\n"));
}

#[test]
fn it_works() {
    let source = r#"//! Test crate for cargo-readme
//!
//! This is a test docstring for cargo-readme
//! ```
//! # This should not be on the output
//! #[this_should_be_in_the_output]
//!
//! fn function() {
//!     println!("indent level");
//!     if condition {
//!         println!("deeper indent level");
//!     }
//! }
//! ```
//! # This also should be on the output, it's a heading

#[test]
fn it_works() {
}"#;
    let expected = r#"Test crate for cargo-readme

This is a test docstring for cargo-readme
```rust
#[this_should_be_in_the_output]

fn function() {
    println!("indent level");
    if condition {
        println!("deeper indent level");
    }
}
```
## This also should be on the output, it's a heading"#;
    assert_eq!(extract_docs(&lines_of(source), true).unwrap(), expected);
}

#[test]
fn empty_source_gives_empty_text() {
    assert_eq!(extract_docs(&Vec::new(), true).unwrap(), "");
    assert_eq!(extract_docs(&lines_of("fn main() {}"), false).unwrap(), "");
    assert!(strip_docs(&Vec::new()).is_empty());
}

#[test]
fn normalize_line_takes_marker_and_one_space() {
    assert_eq!(normalize_line("//! text".to_string()), "text");
    assert_eq!(normalize_line("//!text".to_string()), "text");
    assert_eq!(normalize_line("//!  two".to_string()), " two");
    assert_eq!(normalize_line("/*! open".to_string()), "open");
    assert_eq!(normalize_line("//!".to_string()), "");
    assert_eq!(normalize_line("//! ".to_string()), "");
    assert_eq!(normalize_line("//!   \t".to_string()), "");
    assert_eq!(normalize_line("//! keep  ".to_string()), "keep  ");
    assert_eq!(normalize_line("//!\ttab".to_string()), "\ttab");
}

#[test]
fn block_lines_lose_trailing_space() {
    let raw = vec!["/*! title".to_string(), "body  ".to_string(), "//! data ".to_string()];
    assert_eq!(strip_docs(&raw), ["title", "body", "//! data"]);
    let bare = vec!["/*!".to_string(), "  indented".to_string()];
    assert_eq!(strip_docs(&bare), ["  indented"]);
}

#[test]
fn reader_hands_out_the_block_line_by_line() {
    let input = lines_of("fn f() {}\n//! a\n//!\n//! b \ncode\n//! c");
    let mut reader = DocExtractor::new(input).unwrap();
    assert_eq!(reader.next(), Some("a".to_string()));
    assert_eq!(reader.next(), Some("".to_string()));
    assert_eq!(reader.next(), Some("b ".to_string()));
    assert_eq!(reader.next(), None);
    assert_eq!(reader.next(), None);
}

#[test]
fn reader_collects_what_is_left() {
    let mut reader = lines_of("/*! a\nb\nc */").extract_doc().unwrap();
    assert_eq!(reader.next(), Some("a".to_string()));
    assert_eq!(reader.collect(), ["b", "c"]);
}

#[test]
fn reader_refuses_mixed_styles() {
    assert!(matches!(
        DocExtractor::new(lines_of("//! a\n/*! b\nc */")),
        Err(LoadError::MixedCommentStyle)
    ));
    assert!(DocExtractor::new(lines_of("/*! a\n//! b\nc */")).is_ok());
}

#[test]
fn lines_can_be_processed_as_they_are() {
    let lines = lines_of("# a\n```\n# b\n```");
    assert_eq!(lines.process_docs(true).unwrap(), ["## a", "```rust", "```"]);
}
