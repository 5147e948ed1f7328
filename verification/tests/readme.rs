use cargo_readme::load::LoadError;
use cargo_readme::manifest::Manifest;
use cargo_readme::process::{PatternError, Processor};
use cargo_readme::generate_readme;
use cargo_readme::readme::{extract_docs_with, render_docs, ReadmeError};
use cargo_readme::template::TemplateError;

fn lines_of(text: &str) -> Vec<String> {
    text.lines().map(|l| l.to_string()).collect()
}

fn manifest(license: Option<&str>) -> Manifest {
    Manifest {
        name: "readme-test".to_owned(),
        license: license.map(|l| l.to_owned()),
        lib: None,
        bin: Vec::new(),
        badges: Vec::new(),
        version: "0.1.0".to_owned(),
    }
}

const SOURCE: &str = "//! Test crate for cargo-readme\n//!\n//! # Usage\n//! ```no_run\n//! # fn main() {\n//! run();\n//! # }\n//! ```\nfn run() {}\n";

#[test]
fn readme_without_template() {
    let readme = generate_readme(&lines_of(SOURCE), None, &manifest(Some("MIT")), true, true, true, true);
    assert_eq!(
        readme.unwrap(),
        "# readme-test\n\nTest crate for cargo-readme\n\n## Usage\n```rust\nrun();\n```\n\nLicense: MIT"
    );
}

#[test]
fn readme_of_a_source_without_docs() {
    let readme = generate_readme(&lines_of("fn main() {}"), None, &manifest(Some("MIT")), true, false, true, true);
    assert_eq!(readme.unwrap(), "# readme-test\n\nLicense: MIT");
    let bare = generate_readme(&Vec::new(), None, &manifest(None), false, false, false, true);
    assert_eq!(bare.unwrap(), "");
}

#[test]
fn readme_through_a_template() {
    let template = Some("{{readme}}\n\n-- {{crate}}, {{license}}\n".to_owned());
    let readme =
        generate_readme(&lines_of(SOURCE), template, &manifest(Some("MIT")), true, false, true, false);
    assert_eq!(
        readme.unwrap(),
        "Test crate for cargo-readme\n\n# Usage\n```rust\nrun();\n```\n\n-- readme-test, MIT"
    );
}

#[test]
fn readme_errors_name_their_stage() {
    let mixed = generate_readme(&lines_of("//! a\n/*! b */"), None, &manifest(None), true, true, true, true);
    assert_eq!(mixed, Err(ReadmeError::Load(LoadError::MixedCommentStyle)));
    assert_eq!(mixed.unwrap_err().message(), "Cannot mix singleline and multiline doc comments");
    assert_eq!(ReadmeError::Load(LoadError::MixedCommentStyle).stage(), "load");
    assert_eq!(ReadmeError::Pattern(PatternError::Rust).stage(), "transform");
    assert_eq!(ReadmeError::LicenseNotFound.stage(), "template");
    assert_eq!(ReadmeError::Template(TemplateError::NoTitle).stage(), "template");

    let no_license = generate_readme(&lines_of(SOURCE), None, &manifest(None), true, true, true, true);
    assert_eq!(no_license, Err(ReadmeError::LicenseNotFound));
    assert_eq!(no_license.unwrap_err().message(), "License not found in Cargo.toml");

    let template = Some("no token".to_owned());
    let bad = generate_readme(&lines_of(SOURCE), template, &manifest(Some("MIT")), true, true, true, true);
    assert_eq!(bad, Err(ReadmeError::Template(TemplateError::MissingReadme)));
    assert_eq!(bad.unwrap_err().message(), "Missing `{{readme}}` in template");
}

#[test]
fn refused_patterns_fail_after_loading() {
    let source = lines_of(SOURCE);
    let refused = extract_docs_with(Err(PatternError::Other), &source, true);
    assert_eq!(refused, Err(ReadmeError::Pattern(PatternError::Other)));
    assert_eq!(refused.unwrap_err().message(), "Cannot compile the code fence patterns");
    let mixed = extract_docs_with(Err(PatternError::Rust), &lines_of("//! a\n/*! b"), true);
    assert_eq!(mixed, Err(ReadmeError::Load(LoadError::MixedCommentStyle)));
    let fine = extract_docs_with(Processor::new(false), &source, false);
    assert_eq!(fine.unwrap(), "Test crate for cargo-readme\n\n# Usage\n```rust\nrun();\n```");
}

#[test]
fn render_docs_passes_errors_on() {
    let cargo = manifest(Some("MIT"));
    let failed = render_docs(Err(ReadmeError::Pattern(PatternError::Text)), None, &cargo, true, true, true);
    assert_eq!(failed, Err(ReadmeError::Pattern(PatternError::Text)));
    let done = render_docs(Ok("docs".to_owned()), None, &cargo, false, false, true);
    assert_eq!(done.unwrap(), "docs\n\nLicense: MIT");
}
