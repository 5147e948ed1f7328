//! From the lines of a source file to the README.

use vstd::prelude::*;
use vstd::string::*;
use crate::extract::{strip_docs, stripped_docs};
use crate::load::{load_docs, load_spec, LoadError};
use crate::manifest::Manifest;
use crate::process::{process_spec, refused_pattern, PatternError, Processor, Section};
use crate::template::{render, render_spec, TemplateError};
use crate::text::{join, joined, text_of, texts};

verus! {

/// Why no README could be made.
#[derive(Clone, Copy, Debug, PartialEq, Eq, Structural)]
pub enum ReadmeError {
    /// The doc block could not be loaded.
    Load(LoadError),
    /// A fence pattern could not be compiled.
    Pattern(PatternError),
    /// The license is wanted, and the manifest names none.
    LicenseNotFound,
    /// The template could not be rendered.
    Template(TemplateError),
}

impl ReadmeError {
    /// The name of each stage.
    pub open spec fn stage_spec(&self) -> Seq<char> {
        match self {
            ReadmeError::Load(_) => "load"@,
            ReadmeError::Pattern(_) => "transform"@,
            ReadmeError::LicenseNotFound => "template"@,
            ReadmeError::Template(_) => "template"@,
        }
    }

    /// The stage that failed: `load`, `transform` or `template`.
    pub fn stage(&self) -> (r: &'static str)
        ensures
            r@ == self.stage_spec(),
    {
        match self {
            ReadmeError::Load(_) => "load",
            ReadmeError::Pattern(_) => "transform",
            ReadmeError::LicenseNotFound => "template",
            ReadmeError::Template(_) => "template",
        }
    }

    /// A one-line description of what went wrong.
    pub fn message(&self) -> (r: String)
        ensures
            r@ == (match self {
                ReadmeError::Load(e) => "Cannot mix singleline and multiline doc comments"@,
                ReadmeError::Pattern(e) => "Cannot compile the code fence patterns"@,
                ReadmeError::LicenseNotFound => "License not found in Cargo.toml"@,
                ReadmeError::Template(e) => e.message_spec(),
            }),
    {
        match self {
            ReadmeError::Load(e) => e.message(),
            ReadmeError::Pattern(_) => String::from_str("Cannot compile the code fence patterns"),
            ReadmeError::LicenseNotFound => String::from_str("License not found in Cargo.toml"),
            ReadmeError::Template(e) => e.message(),
        }
    }
}

/// The text of a result that holds a string.
pub open spec fn outcome<E>(r: Result<String, E>) -> Result<Seq<char>, E> {
    match r {
        Ok(s) => Ok(s@),
        Err(e) => Err(e),
    }
}

/// The error of a processor that could not be made.
pub open spec fn refusal(processor: Result<Processor, PatternError>) -> Option<PatternError> {
    match processor {
        Ok(_) => None,
        Err(e) => Some(e),
    }
}

/// The documentation of a source file as markdown text: its doc block,
/// loaded, stripped of the comment markers, rewritten, and joined by line
/// breaks. `refused` names the fence pattern that could not be compiled, if
/// there is one.
pub open spec fn docs_spec(source: Seq<Seq<char>>, indent: bool, refused: Option<PatternError>)
    -> Result<Seq<char>, ReadmeError> {
    match load_spec(source) {
        Err(e) => Err(ReadmeError::Load(e)),
        Ok(raw) => match refused {
            Some(e) => Err(ReadmeError::Pattern(e)),
            None => Ok(joined(process_spec(stripped_docs(raw), indent), "\n"@)),
        },
    }
}

/// The README of a crate: the documentation of its source file, rendered
/// with the package data.
pub open spec fn readme_spec(
    source: Seq<Seq<char>>,
    template: Option<Seq<char>>,
    name: Seq<char>,
    badges: Seq<Seq<char>>,
    license: Option<Seq<char>>,
    add_title: bool,
    add_badges: bool,
    add_license: bool,
    indent: bool,
    refused: Option<PatternError>,
) -> Result<Seq<char>, ReadmeError> {
    match docs_spec(source, indent, refused) {
        Err(e) => Err(e),
        Ok(docs) => {
            if add_license && license is None {
                Err(ReadmeError::LicenseNotFound)
            } else {
                match render_spec(
                    template,
                    docs,
                    name,
                    badges,
                    license,
                    add_title,
                    add_badges,
                    add_license,
                ) {
                    Ok(s) => Ok(s),
                    Err(e) => Err(ReadmeError::Template(e)),
                }
            }
        },
    }
}

/// Joins the lines into one text, with a line break between each two.
pub fn fold_data(data: Vec<String>) -> (r: String)
    ensures
        r@ == joined(texts(data@), "\n"@),
{
    join(&data, "\n")
}

/// The documentation of a source file as markdown text, with the processor
/// that the caller made for it, or the error that came in its place.
pub fn extract_docs_with(
    processor: Result<Processor, PatternError>,
    source: &Vec<String>,
    indent_headings: bool,
) -> (r: Result<String, ReadmeError>)
    requires
        processor matches Ok(p) ==> p.wf() && p.section_spec() == Section::Normal && p.indent_spec()
            == indent_headings,
    ensures
        outcome(r) == docs_spec(texts(source@), indent_headings, refusal(processor)),
{
    let raw = match load_docs(source) {
        Ok(raw) => raw,
        Err(e) => {
            return Err(ReadmeError::Load(e));
        },
    };
    let mut processor = match processor {
        Ok(p) => p,
        Err(e) => {
            return Err(ReadmeError::Pattern(e));
        },
    };
    let stripped = strip_docs(&raw);
    let lines = processor.process_all(&stripped);
    Ok(fold_data(lines))
}

/// Reads the doc block among the lines of a source file and returns it as
/// markdown text. An error of kind `Pattern` comes where the source loads and
/// the `regex` crate refuses a fence pattern, and nowhere else.
pub fn extract_docs(source: &Vec<String>, indent_headings: bool) -> (r: Result<String, ReadmeError>)
    ensures
        outcome(r) == docs_spec(texts(source@), indent_headings, refused_pattern()),
{
    extract_docs_with(Processor::new(indent_headings), source, indent_headings)
}

/// The README for the documentation `docs` of a crate.
pub fn render_docs(
    docs: Result<String, ReadmeError>,
    template: Option<String>,
    cargo: &Manifest,
    add_title: bool,
    add_badges: bool,
    add_license: bool,
) -> (r: Result<String, ReadmeError>)
    ensures
        outcome(r) == (match outcome(docs) {
            Err(e) => Err::<Seq<char>, ReadmeError>(e),
            Ok(text) => {
                if add_license && cargo.license is None {
                    Err(ReadmeError::LicenseNotFound)
                } else {
                    match render_spec(
                        text_of(template),
                        text,
                        cargo.name@,
                        texts(cargo.badges@),
                        text_of(cargo.license),
                        add_title,
                        add_badges,
                        add_license,
                    ) {
                        Ok(s) => Ok(s),
                        Err(e) => Err(ReadmeError::Template(e)),
                    }
                }
            },
        }),
{
    let docs = match docs {
        Ok(docs) => docs,
        Err(e) => {
            return Err(e);
        },
    };
    if add_license && cargo.license.is_none() {
        return Err(ReadmeError::LicenseNotFound);
    }
    match render(template, docs, cargo, add_title, add_badges, add_license) {
        Ok(s) => Ok(s),
        Err(e) => Err(ReadmeError::Template(e)),
    }
}

/// Generates the README from the lines of a source file.
///
/// The doc block of `source` is turned into markdown and rendered through
/// `template`, or, without one, with title, badges and license around it as
/// far as each is switched on. An error of kind `Pattern` comes where the
/// source loads and the `regex` crate refuses a fence pattern, and nowhere
/// else.
pub fn generate_readme(
    source: &Vec<String>,
    template: Option<String>,
    cargo: &Manifest,
    add_title: bool,
    add_badges: bool,
    add_license: bool,
    indent_headings: bool,
) -> (r: Result<String, ReadmeError>)
    ensures
        outcome(r) == readme_spec(
            texts(source@),
            text_of(template),
            cargo.name@,
            texts(cargo.badges@),
            text_of(cargo.license),
            add_title,
            add_badges,
            add_license,
            indent_headings,
            refused_pattern(),
        ),
{
    let docs = extract_docs(source, indent_headings);
    render_docs(docs, template, cargo, add_title, add_badges, add_license)
}

/// A doc block without lines becomes the empty text.
pub proof fn law_empty_block(indent: bool)
    ensures
        joined(process_spec(stripped_docs(Seq::empty()), indent), "\n"@) == Seq::<char>::empty(),
        load_spec(Seq::empty()) == Ok::<Seq<Seq<char>>, LoadError>(Seq::empty()),
        docs_spec(Seq::empty(), indent, None) == Ok::<Seq<char>, ReadmeError>(Seq::empty()),
{
}

} // verus!
