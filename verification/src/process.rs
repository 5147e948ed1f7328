//! Rewriting doc lines into plain markdown.
//!
//! Code fences that rustdoc would run become ```` ```rust ```` fences, `text`
//! fences lose their annotation, lines that rustdoc hides inside Rust
//! examples are dropped, and headings outside fences can be moved one level
//! down so that the crate name keeps the top level.

use vstd::prelude::*;
use vstd::string::*;
use crate::pattern::{pattern_compiles, pattern_matches, Pattern};
use crate::text::{has_prefix, starts_with, text_of, texts};

verus! {

/// Fences that open a Rust example.
pub const REGEX_CODE_RUST: &'static str = "^```(rust|((rust,)?(no_run|ignore|should_panic)))?$";

/// Fences that open a block of plain text.
pub const REGEX_CODE_TEXT: &'static str = "^```text$";

/// Fences that open a block in any other language.
pub const REGEX_CODE_OTHER: &'static str = "^```\\w[\\w,\\+]*$";

/// Where a line stands with respect to code fences.
#[derive(Clone, Copy, Debug, PartialEq, Eq, Structural)]
pub enum Section {
    /// Outside any fence.
    Normal,
    /// Inside a fence of Rust code.
    CodeRust,
    /// Inside a fence of anything else.
    CodeOther,
}

/// Which of the three fence patterns a line matches.
#[derive(Clone, Copy, Debug, PartialEq, Eq, Structural)]
pub struct Fence {
    pub rust: bool,
    pub text: bool,
    pub other: bool,
}

/// A fence pattern could not be compiled.
#[derive(Clone, Copy, Debug, PartialEq, Eq, Structural)]
pub enum PatternError {
    /// The pattern for Rust fences was refused.
    Rust,
    /// The pattern for text fences was refused.
    Text,
    /// The pattern for other fences was refused.
    Other,
}

/// The first of the three fence patterns that the `regex` crate refuses to
/// compile, if it refuses any.
pub open spec fn refused_pattern() -> Option<PatternError> {
    if !pattern_compiles(REGEX_CODE_RUST@) {
        Some(PatternError::Rust)
    } else if !pattern_compiles(REGEX_CODE_TEXT@) {
        Some(PatternError::Text)
    } else if !pattern_compiles(REGEX_CODE_OTHER@) {
        Some(PatternError::Other)
    } else {
        None
    }
}

/// The fence patterns that `line` matches.
pub open spec fn fence_of(line: Seq<char>) -> Fence {
    Fence {
        rust: pattern_matches(REGEX_CODE_RUST@, line),
        text: pattern_matches(REGEX_CODE_TEXT@, line),
        other: pattern_matches(REGEX_CODE_OTHER@, line),
    }
}

/// Whether `line` is hidden in section `section`: inside a Rust example, a
/// line that begins with `# `.
pub open spec fn is_hidden(section: Section, line: Seq<char>) -> bool {
    section == Section::CodeRust && has_prefix(line, "# "@)
}

/// Whether `line` is a heading to be moved one level down.
pub open spec fn is_indented(section: Section, indent: bool, line: Seq<char>) -> bool {
    indent && section == Section::Normal && has_prefix(line, "#"@)
}

/// The section in which the line after `line` stands.
pub open spec fn next_section(section: Section, indent: bool, line: Seq<char>, fence: Fence)
    -> Section {
    if is_hidden(section, line) || is_indented(section, indent, line) {
        section
    } else if section == Section::Normal {
        if fence.rust {
            Section::CodeRust
        } else if fence.text || fence.other {
            Section::CodeOther
        } else {
            Section::Normal
        }
    } else if line == "```"@ {
        Section::Normal
    } else {
        section
    }
}

/// What `line` becomes in the output, if it stays.
pub open spec fn rewritten(section: Section, indent: bool, line: Seq<char>, fence: Fence)
    -> Option<Seq<char>> {
    if is_hidden(section, line) {
        None
    } else if is_indented(section, indent, line) {
        Some("#"@ + line)
    } else if section == Section::Normal && fence.rust {
        Some("```rust"@)
    } else if section == Section::Normal && fence.text {
        Some("```"@)
    } else {
        Some(line)
    }
}

/// The output lines for the lines of `lines` from index `i` on, where line
/// `i` stands in section `section`.
pub open spec fn process_from(lines: Seq<Seq<char>>, i: int, section: Section, indent: bool)
    -> Seq<Seq<char>>
    decreases lines.len() - i,
{
    if i < 0 || i >= lines.len() {
        Seq::empty()
    } else {
        let fence = fence_of(lines[i]);
        let rest = process_from(
            lines,
            i + 1,
            next_section(section, indent, lines[i], fence),
            indent,
        );
        match rewritten(section, indent, lines[i], fence) {
            Some(line) => seq![line] + rest,
            None => rest,
        }
    }
}

/// The section reached after the lines of `lines` from index `i` on.
pub open spec fn section_from(lines: Seq<Seq<char>>, i: int, section: Section, indent: bool)
    -> Section
    decreases lines.len() - i,
{
    if i < 0 || i >= lines.len() {
        section
    } else {
        section_from(
            lines,
            i + 1,
            next_section(section, indent, lines[i], fence_of(lines[i])),
            indent,
        )
    }
}

/// The markdown lines that the doc lines `lines` become.
pub open spec fn process_spec(lines: Seq<Seq<char>>, indent: bool) -> Seq<Seq<char>> {
    process_from(lines, 0, Section::Normal, indent)
}

/// Rewrites one line that stands in section `section` and matches the fence
/// patterns as `fence` says: the section of the next line, and the line as it
/// goes to the output, if it does.
pub fn rewrite_line(section: Section, indent_headings: bool, line: String, fence: Fence) -> (r: (
    Section,
    Option<String>,
))
    ensures
        r.0 == next_section(section, indent_headings, line@, fence),
        text_of(r.1) == rewritten(section, indent_headings, line@, fence),
{
    if section == Section::CodeRust && starts_with(line.as_str(), "# ") {
        return (section, None);
    }
    if indent_headings && section == Section::Normal && starts_with(line.as_str(), "#") {
        let deeper = String::from_str("#").concat(line.as_str());
        (section, Some(deeper))
    } else if section == Section::Normal && fence.rust {
        (Section::CodeRust, Some(String::from_str("```rust")))
    } else if section == Section::Normal && fence.text {
        (Section::CodeOther, Some(String::from_str("```")))
    } else if section == Section::Normal && fence.other {
        (Section::CodeOther, Some(line))
    } else if section != Section::Normal && line == String::from_str("```") {
        (Section::Normal, Some(line))
    } else {
        (section, Some(line))
    }
}

/// The state of a rewriting run: the section of the next line, and the
/// compiled fence patterns.
pub struct Processor {
    section: Section,
    indent_headings: bool,
    re_code_rust: Pattern,
    re_code_text: Pattern,
    re_code_other: Pattern,
}

impl Processor {
    /// Each compiled pattern was built from the fence pattern that it stands
    /// for.
    pub closed spec fn wf(&self) -> bool {
        &&& self.re_code_rust.source() == REGEX_CODE_RUST@
        &&& self.re_code_text.source() == REGEX_CODE_TEXT@
        &&& self.re_code_other.source() == REGEX_CODE_OTHER@
    }

    /// The section in which the next line stands.
    pub closed spec fn section_spec(&self) -> Section {
        self.section
    }

    /// Whether headings are moved one level down.
    pub closed spec fn indent_spec(&self) -> bool {
        self.indent_headings
    }

    /// Builds the state for the start of a doc block from the outcomes of
    /// compiling the three fence patterns; the first pattern that was refused
    /// names the error.
    pub fn from_patterns(
        indent_headings: bool,
        rust: Option<Pattern>,
        text: Option<Pattern>,
        other: Option<Pattern>,
    ) -> (r: Result<Processor, PatternError>)
        requires
            rust matches Some(p) ==> p.source() == REGEX_CODE_RUST@,
            text matches Some(p) ==> p.source() == REGEX_CODE_TEXT@,
            other matches Some(p) ==> p.source() == REGEX_CODE_OTHER@,
        ensures
            r is Ok <==> rust is Some && text is Some && other is Some,
            r matches Ok(p) ==> p.wf() && p.section_spec() == Section::Normal && p.indent_spec()
                == indent_headings,
            r matches Err(e) ==> e == (if rust is None {
                PatternError::Rust
            } else if text is None {
                PatternError::Text
            } else {
                PatternError::Other
            }),
    {
        let re_code_rust = match rust {
            Some(p) => p,
            None => {
                return Err(PatternError::Rust);
            },
        };
        let re_code_text = match text {
            Some(p) => p,
            None => {
                return Err(PatternError::Text);
            },
        };
        let re_code_other = match other {
            Some(p) => p,
            None => {
                return Err(PatternError::Other);
            },
        };
        Ok(
            Processor {
                section: Section::Normal,
                indent_headings,
                re_code_rust,
                re_code_text,
                re_code_other,
            },
        )
    }

    /// A processor at the start of a doc block. It is made where the `regex`
    /// crate accepts the three fence patterns; else the error names the first
    /// pattern that it refused.
    pub fn new(indent_headings: bool) -> (r: Result<Processor, PatternError>)
        ensures
            match refused_pattern() {
                None => r matches Ok(p) && p.wf() && p.section_spec() == Section::Normal
                    && p.indent_spec() == indent_headings,
                Some(e) => r matches Err(f) && f == e,
            },
    {
        Processor::from_patterns(
            indent_headings,
            Pattern::new(REGEX_CODE_RUST),
            Pattern::new(REGEX_CODE_TEXT),
            Pattern::new(REGEX_CODE_OTHER),
        )
    }

    /// The section in which the next line stands.
    pub fn section(&self) -> (r: Section)
        ensures
            r == self.section_spec(),
    {
        self.section
    }

    /// Rewrites the next line of the doc block; `None` where the line is
    /// hidden.
    pub fn process_line(&mut self, line: String) -> (r: Option<String>)
        requires
            old(self).wf(),
        ensures
            final(self).wf(),
            final(self).indent_spec() == old(self).indent_spec(),
            final(self).section_spec() == next_section(
                old(self).section_spec(),
                old(self).indent_spec(),
                line@,
                fence_of(line@),
            ),
            text_of(r) == rewritten(
                old(self).section_spec(),
                old(self).indent_spec(),
                line@,
                fence_of(line@),
            ),
    {
        let fence = match self.section {
            Section::Normal => Fence {
                rust: self.re_code_rust.is_match(line.as_str()),
                text: self.re_code_text.is_match(line.as_str()),
                other: self.re_code_other.is_match(line.as_str()),
            },
            _ => Fence { rust: false, text: false, other: false },
        };
        let (next, out) = rewrite_line(self.section, self.indent_headings, line, fence);
        self.section = next;
        out
    }

    /// Rewrites the lines of `lines` in order, from the state that the
    /// processor is in.
    pub fn process_all(&mut self, lines: &Vec<String>) -> (out: Vec<String>)
        requires
            old(self).wf(),
        ensures
            final(self).wf(),
            final(self).indent_spec() == old(self).indent_spec(),
            final(self).section_spec() == section_from(
                texts(lines@),
                0,
                old(self).section_spec(),
                old(self).indent_spec(),
            ),
            texts(out@) == process_from(
                texts(lines@),
                0,
                old(self).section_spec(),
                old(self).indent_spec(),
            ),
    {
        let n: usize = lines.len();
        let mut out: Vec<String> = Vec::new();
        let mut i: usize = 0;
        let ghost all = texts(lines@);
        let ghost start = self.section_spec();
        let ghost indent = self.indent_spec();
        proof {
            assert(texts(out@) + process_from(all, 0, start, indent) =~= process_from(
                all,
                0,
                start,
                indent,
            ));
        }
        while i < n
            invariant
                i <= n,
                n == lines@.len(),
                all == texts(lines@),
                self.wf(),
                self.indent_spec() == indent,
                section_from(all, 0, start, indent) == section_from(
                    all,
                    i as int,
                    self.section_spec(),
                    indent,
                ),
                process_from(all, 0, start, indent) == texts(out@) + process_from(
                    all,
                    i as int,
                    self.section_spec(),
                    indent,
                ),
            decreases n - i,
        {
            let ghost before = out@;
            let ghost section = self.section_spec();
            proof {
                assert(all[i as int] == lines@[i as int]@);
            }
            match self.process_line(lines[i].clone()) {
                Some(line) => {
                    out.push(line);
                    proof {
                        let rest = process_from(all, i + 1, self.section_spec(), indent);
                        assert(texts(out@) =~= texts(before) + seq![line@]);
                        assert((texts(before) + seq![line@]) + rest =~= texts(before) + (seq![
                            line@,
                        ] + rest));
                    }
                },
                None => {},
            }
            i += 1;
        }
        proof {
            assert(texts(out@) + Seq::<Seq<char>>::empty() =~= texts(out@));
        }
        out
    }
}

/// Rewrites the lines of a doc block, without their comment markers, into
/// markdown lines. It fails where the `regex` crate refuses one of the fence
/// patterns, with the error that names the first one refused, and nowhere
/// else.
pub fn process_docs(lines: Vec<String>, indent_headings: bool) -> (r: Result<
    Vec<String>,
    PatternError,
>)
    ensures
        match refused_pattern() {
            None => r matches Ok(v) && texts(v@) == process_spec(texts(lines@), indent_headings),
            Some(e) => r matches Err(f) && f == e,
        },
{
    process_docs_with(Processor::new(indent_headings), &lines)
}

/// Fence canonicalization: outside a fence, every line that the pattern for
/// Rust fences matches, whatever its annotation, becomes the one marker
/// ```` ```rust ```` and opens a Rust section. (A line that is moved down as
/// a heading begins with `#` and is no fence.)
pub proof fn law_rust_fence_canonical(indent: bool, line: Seq<char>, fence: Fence)
    requires
        fence.rust,
        !is_indented(Section::Normal, indent, line),
    ensures
        rewritten(Section::Normal, indent, line, fence) == Some("```rust"@),
        next_section(Section::Normal, indent, line, fence) == Section::CodeRust,
{
}

/// Hidden-line suppression: a line that begins with `# ` is dropped inside a
/// Rust fence and kept as it stands inside any other fence; in both cases
/// the section stays what it was.
pub proof fn law_hidden_lines(indent: bool, line: Seq<char>, fence: Fence)
    requires
        has_prefix(line, "# "@),
    ensures
        rewritten(Section::CodeRust, indent, line, fence) is None,
        next_section(Section::CodeRust, indent, line, fence) == Section::CodeRust,
        rewritten(Section::CodeOther, indent, line, fence) == Some(line),
        next_section(Section::CodeOther, indent, line, fence) == Section::CodeOther,
{
    reveal_strlit("# ");
    reveal_strlit("```");
    assert(line.subrange(0, 2)[0] == '#');
    assert("```"@[0] == '`');
}

/// Heading depth: outside a fence a line that begins with `#` gets one more
/// `#` where headings are moved down, and stays as it is where they are not
/// (unless it opens a fence that is rewritten); inside a fence no line is
/// ever given a `#`.
pub proof fn law_heading_depth(indent: bool, line: Seq<char>, fence: Fence)
    requires
        has_prefix(line, "#"@),
    ensures
        rewritten(Section::Normal, true, line, fence) == Some("#"@ + line),
        next_section(Section::Normal, true, line, fence) == Section::Normal,
        !fence.rust && !fence.text ==> rewritten(Section::Normal, false, line, fence) == Some(line),
        rewritten(Section::CodeRust, indent, line, fence) == (if has_prefix(line, "# "@) {
            None
        } else {
            Some(line)
        }),
        rewritten(Section::CodeOther, indent, line, fence) == Some(line),
{
}

/// Outside the section `Normal` the fence patterns decide nothing.
pub proof fn law_fences_open_outside_only(
    section: Section,
    indent: bool,
    line: Seq<char>,
    a: Fence,
    b: Fence,
)
    requires
        section != Section::Normal,
    ensures
        rewritten(section, indent, line, a) == rewritten(section, indent, line, b),
        next_section(section, indent, line, a) == next_section(section, indent, line, b),
{
}

/// Lists of doc lines that can be rewritten into markdown.
///
/// The lines are taken as `strip_docs` gives them: without comment markers
/// and in order. Rewriting starts outside any fence, and a fence that is
/// still open at the last line is accepted as it stands: the lines after it
/// are rewritten as lines of that fence. Each line is looked at once, and no
/// line is added.
pub trait DocProcess: Sized {
    /// The texts of the lines.
    spec fn doc_lines(&self) -> Seq<Seq<char>>;

    /// The lines as markdown; it fails where the `regex` crate refuses one of
    /// the fence patterns, and nowhere else.
    fn process_docs(self, indent_headings: bool) -> (r: Result<Vec<String>, PatternError>)
        ensures
            match refused_pattern() {
                None => r matches Ok(v) && texts(v@) == process_spec(
                    self.doc_lines(),
                    indent_headings,
                ),
                Some(e) => r matches Err(f) && f == e,
            },
    ;
}

impl DocProcess for Vec<String> {
    open spec fn doc_lines(&self) -> Seq<Seq<char>> {
        texts(self@)
    }

    fn process_docs(self, indent_headings: bool) -> (r: Result<Vec<String>, PatternError>) {
        process_docs(self, indent_headings)
    }
}

/// The heading `line` one level down; any other line as it is.
pub open spec fn heading_fixed(line: Seq<char>) -> Seq<char> {
    if has_prefix(line, "#"@) {
        "#"@ + line
    } else {
        line
    }
}

/// Moves every line that begins with `#` one heading level down, fences or
/// not.
pub fn fix_headings(data: Vec<String>) -> (out: Vec<String>)
    ensures
        texts(out@) == Seq::new(data@.len(), |i: int| heading_fixed(data@[i]@)),
{
    let n: usize = data.len();
    let mut out: Vec<String> = Vec::new();
    let mut i: usize = 0;
    while i < n
        invariant
            i <= n,
            n == data@.len(),
            texts(out@) =~= Seq::new(i as nat, |k: int| heading_fixed(data@[k]@)),
        decreases n - i,
    {
        let ghost before = out@;
        if starts_with(data[i].as_str(), "#") {
            out.push(String::from_str("#").concat(data[i].as_str()));
        } else {
            out.push(data[i].clone());
        }
        proof {
            assert(texts(out@) =~= texts(before).push(heading_fixed(data@[i as int]@)));
            assert(Seq::new((i + 1) as nat, |k: int| heading_fixed(data@[k]@)) =~= Seq::new(
                i as nat,
                |k: int| heading_fixed(data@[k]@),
            ).push(heading_fixed(data@[i as int]@)));
        }
        i += 1;
    }
    out
}

proof fn lemma_process_shift(
    first: Seq<char>,
    body: Seq<Seq<char>>,
    i: int,
    section: Section,
    indent: bool,
)
    requires
        0 <= i <= body.len(),
    ensures
        process_from(seq![first] + body, i + 1, section, indent) == process_from(
            body,
            i,
            section,
            indent,
        ),
    decreases body.len() - i,
{
    let all = seq![first] + body;
    if i < body.len() {
        assert(all[i + 1] == body[i]);
        lemma_process_shift(
            first,
            body,
            i + 1,
            next_section(section, indent, body[i], fence_of(body[i])),
            indent,
        );
    }
}

/// Fence canonicalization, on whole blocks: two blocks that differ only in
/// their first line, where both first lines are matched by the pattern for
/// Rust fences, are rewritten to the same lines, and the first of them is
/// ```` ```rust ````. (A line that is moved down as a heading begins with `#`
/// and is no fence.)
pub proof fn law_rust_fences_alike(
    a: Seq<char>,
    b: Seq<char>,
    body: Seq<Seq<char>>,
    indent: bool,
)
    requires
        fence_of(a).rust,
        fence_of(b).rust,
        !is_indented(Section::Normal, indent, a),
        !is_indented(Section::Normal, indent, b),
    ensures
        process_spec(seq![a] + body, indent) == seq!["```rust"@] + process_from(
            body,
            0,
            Section::CodeRust,
            indent,
        ),
        process_spec(seq![a] + body, indent) == process_spec(seq![b] + body, indent),
{
    lemma_process_shift(a, body, 0, Section::CodeRust, indent);
    lemma_process_shift(b, body, 0, Section::CodeRust, indent);
    assert((seq![a] + body)[0] == a);
    assert((seq![b] + body)[0] == b);
}

/// Whether a line matches none of the fence patterns.
pub open spec fn no_fence(fence: Fence) -> bool {
    !fence.rust && !fence.text && !fence.other
}

/// Whether the lines `with` are the lines `without`, each as it is or, where
/// it begins with `#`, with one more `#` before it.
pub open spec fn deepened(with: Seq<Seq<char>>, without: Seq<Seq<char>>) -> bool {
    &&& with.len() == without.len()
    &&& forall|k: int|
        0 <= k < with.len() ==> #[trigger] with[k] == without[k] || (has_prefix(without[k], "#"@)
            && with[k] == "#"@ + without[k])
}

/// Moving headings down changes nothing but the headings: for lines of
/// which none that begins with `#` is matched by a fence pattern, the lines
/// written with headings moved down are those written without, each as it is
/// or one level deeper, and both runs end in the same section.
pub proof fn law_indent_only_deepens(lines: Seq<Seq<char>>, i: int, section: Section)
    requires
        forall|k: int|
            0 <= k < lines.len() && has_prefix(#[trigger] lines[k], "#"@) ==> no_fence(
                fence_of(lines[k]),
            ),
    ensures
        section_from(lines, i, section, true) == section_from(lines, i, section, false),
        deepened(process_from(lines, i, section, true), process_from(lines, i, section, false)),
    decreases lines.len() - i,
{
    if 0 <= i < lines.len() {
        let line = lines[i];
        let fence = fence_of(line);
        let next = next_section(section, false, line, fence);
        assert(has_prefix(line, "#"@) ==> no_fence(fence));
        assert(next_section(section, true, line, fence) == next);
        law_indent_only_deepens(lines, i + 1, next);
        let rest_with = process_from(lines, i + 1, next, true);
        let rest_without = process_from(lines, i + 1, next, false);
        let with = process_from(lines, i, section, true);
        let without = process_from(lines, i, section, false);
        match rewritten(section, false, line, fence) {
            Some(plain) => {
                let moved = rewritten(section, true, line, fence)->Some_0;
                assert(with == seq![moved] + rest_with);
                assert(without == seq![plain] + rest_without);
                assert(moved == plain || (has_prefix(plain, "#"@) && moved == "#"@ + plain));
                assert forall|k: int| 0 <= k < with.len() implies #[trigger] with[k] == without[k]
                    || (has_prefix(without[k], "#"@) && with[k] == "#"@ + without[k]) by {
                    if k > 0 {
                        assert(with[k] == rest_with[k - 1]);
                        assert(without[k] == rest_without[k - 1]);
                    }
                }
            },
            None => {},
        }
    }
}

/// Rewrites `lines` with the processor that the caller made for them, from
/// the state that it is in; where an error came in the processor's place,
/// that error is handed on.
pub fn process_docs_with(processor: Result<Processor, PatternError>, lines: &Vec<String>) -> (r:
    Result<Vec<String>, PatternError>)
    requires
        processor matches Ok(p) ==> p.wf(),
    ensures
        match processor {
            Ok(p) => r matches Ok(v) && texts(v@) == process_from(
                texts(lines@),
                0,
                p.section_spec(),
                p.indent_spec(),
            ),
            Err(e) => r matches Err(f) && f == e,
        },
{
    match processor {
        Ok(p) => {
            let mut p = p;
            Ok(p.process_all(lines))
        },
        Err(e) => Err(e),
    }
}

} // verus!
