//! Locating the doc block among the lines of a source file.
//!
//! A doc block is written in one of two styles: a run of lines that each
//! begin with `//!`, or a block comment opened by `/*!`. The loader skips
//! ordinary code until the first marker, then collects the raw lines of the
//! block, markers included. Policy on the points where conventions differ:
//! leading lines without a marker are skipped, and in line style any line
//! that does not begin with `//!` ends the block at once.

use vstd::prelude::*;
use vstd::string::*;
use crate::text::{
    before_last, count, count_matches, has_prefix, last_at_or_before, last_index, occurs_at, rfind,
    starts_with, texts, to_chars,
};

verus! {

/// The comment style that a scan has settled on so far.
#[derive(Clone, Copy, Debug, PartialEq, Eq, Structural)]
pub enum DocStyle {
    /// No doc marker was seen yet.
    NoDoc,
    /// The block is a run of `//!` lines.
    SingleLine,
    /// The block is a `/*!` block comment.
    MultiLine,
}

/// Why a doc block could not be loaded.
#[derive(Clone, Copy, Debug, PartialEq, Eq, Structural)]
pub enum LoadError {
    /// A `/*!` opener stands directly in a run of `//!` lines.
    MixedCommentStyle,
}

impl LoadError {
    /// A one-line description of the error.
    pub fn message(&self) -> (r: String)
        ensures
            r@ == "Cannot mix singleline and multiline doc comments"@,
    {
        String::from_str("Cannot mix singleline and multiline doc comments")
    }
}

/// The marker that begins each line of a line-style doc block.
pub open spec fn line_mark() -> Seq<char> {
    "//!"@
}

/// The marker that opens a block-style doc block.
pub open spec fn block_open() -> Seq<char> {
    "/*!"@
}

/// The opener of an ordinary block comment, counted for nesting.
pub open spec fn nest_open() -> Seq<char> {
    "/*"@
}

/// The closer of a block comment.
pub open spec fn nest_close() -> Seq<char> {
    "*/"@
}

/// `r` with the lines `front` put before what it holds.
pub open spec fn with_front(front: Seq<Seq<char>>, r: Result<Seq<Seq<char>>, LoadError>) -> Result<
    Seq<Seq<char>>,
    LoadError,
> {
    match r {
        Ok(v) => Ok(front + v),
        Err(e) => Err(e),
    }
}

/// The nesting depth after `line`, where it was `depth` before: each `/*`
/// opens a level and each `*/` closes one.
pub open spec fn depth_after(depth: int, line: Seq<char>) -> int {
    depth + count_matches(line, nest_open()) - count_matches(line, nest_close())
}

/// What the line that closes a block contributes: its text before the last
/// `*/`, unless that is empty.
pub open spec fn closing_text(line: Seq<char>) -> Seq<Seq<char>> {
    if before_last(line, nest_close()).len() == 0 {
        Seq::empty()
    } else {
        seq![before_last(line, nest_close())]
    }
}

/// What one line does to a scan.
pub enum Step {
    /// The scan goes on in the given style and at the given depth, and has
    /// taken the given lines (one or none) into the block.
    Go(DocStyle, int, Seq<Seq<char>>),
    /// The block ends with the given lines (one or none).
    Stop(Seq<Seq<char>>),
    /// The scan fails.
    Fail(LoadError),
}

/// What `line` does to a scan that is in style `style` and, in block style,
/// at nesting depth `depth`.
pub open spec fn step(style: DocStyle, depth: int, line: Seq<char>) -> Step {
    match style {
        DocStyle::NoDoc => {
            if has_prefix(line, line_mark()) {
                Step::Go(DocStyle::SingleLine, 0, seq![line])
            } else if has_prefix(line, block_open()) {
                Step::Go(DocStyle::MultiLine, 0, seq![line])
            } else {
                Step::Go(DocStyle::NoDoc, 0, Seq::empty())
            }
        },
        DocStyle::SingleLine => {
            if has_prefix(line, line_mark()) {
                Step::Go(DocStyle::SingleLine, 0, seq![line])
            } else if has_prefix(line, block_open()) {
                Step::Fail(LoadError::MixedCommentStyle)
            } else {
                Step::Stop(Seq::empty())
            }
        },
        DocStyle::MultiLine => {
            if depth_after(depth, line) < 0 {
                Step::Stop(closing_text(line))
            } else {
                Step::Go(DocStyle::MultiLine, depth_after(depth, line), seq![line])
            }
        },
    }
}

/// The doc lines found from line `i` on, for a scan that has reached `i` in
/// style `style` and, in block style, at nesting depth `depth`.
pub open spec fn scan(lines: Seq<Seq<char>>, i: int, style: DocStyle, depth: int) -> Result<
    Seq<Seq<char>>,
    LoadError,
>
    decreases lines.len() - i,
{
    if i < 0 || i >= lines.len() {
        Ok(Seq::empty())
    } else {
        match step(style, depth, lines[i]) {
            Step::Go(next, level, taken) => with_front(taken, scan(lines, i + 1, next, level)),
            Step::Stop(taken) => Ok(taken),
            Step::Fail(e) => Err(e),
        }
    }
}

/// The raw lines of the doc block of a source file, or the error that the
/// file earns.
pub open spec fn load_spec(lines: Seq<Seq<char>>) -> Result<Seq<Seq<char>>, LoadError> {
    scan(lines, 0, DocStyle::NoDoc, 0)
}

proof fn lemma_push_text(old_out: Seq<String>, new_out: Seq<String>, s: String)
    requires
        new_out == old_out.push(s),
    ensures
        texts(new_out) == texts(old_out) + seq![s@],
{
    assert(texts(new_out) =~= texts(old_out) + seq![s@]);
}

proof fn lemma_front_twice(
    a: Seq<Seq<char>>,
    b: Seq<Seq<char>>,
    r: Result<Seq<Seq<char>>, LoadError>,
)
    ensures
        with_front(a, with_front(b, r)) == with_front(a + b, r),
{
    match r {
        Ok(v) => {
            assert(a + (b + v) =~= (a + b) + v);
        },
        Err(_) => {},
    }
}

/// Whether `lines` can be the raw lines of a doc block in style `style`:
/// none before any marker, lines that each begin with `//!` in line style,
/// and lines of which the first begins with `/*!` in block style.
pub open spec fn one_style(style: DocStyle, lines: Seq<Seq<char>>) -> bool {
    match style {
        DocStyle::NoDoc => lines.len() == 0,
        DocStyle::SingleLine => lines.len() > 0 && forall|k: int|
            0 <= k < lines.len() ==> has_prefix(#[trigger] lines[k], line_mark()),
        DocStyle::MultiLine => lines.len() > 0 && has_prefix(lines[0], block_open()),
    }
}

/// The doc block of a source file: its raw lines, markers included, and the
/// one style that they are written in.
#[derive(Debug)]
pub struct DocBlock {
    pub style: DocStyle,
    pub lines: Vec<String>,
}

impl DocBlock {
    /// The lines are all of the block's style; there are none only where no
    /// doc block was found.
    pub open spec fn wf(&self) -> bool {
        one_style(self.style, texts(self.lines@))
    }
}

/// A scan in progress. It takes the lines of a source file one by one and
/// says after each whether it wants the next, so that a caller can stop
/// reading where the doc block ends.
pub struct Loader {
    style: DocStyle,
    depth: u128,
    lines: Vec<String>,
    done: bool,
}

impl Loader {
    /// The depth is zero outside block style, and bounded by what the lines
    /// taken so far can have opened.
    pub closed spec fn wf(&self) -> bool {
        &&& self.style != DocStyle::MultiLine ==> self.depth == 0
        &&& self.depth <= self.lines@.len() * usize::MAX
        &&& one_style(self.style, texts(self.lines@))
    }

    /// The style that the scan is in.
    pub closed spec fn style_spec(&self) -> DocStyle {
        self.style
    }

    /// The nesting depth that the scan is at.
    pub closed spec fn depth_spec(&self) -> int {
        self.depth as int
    }

    /// The lines taken into the block so far.
    pub closed spec fn taken(&self) -> Seq<Seq<char>> {
        texts(self.lines@)
    }

    /// Whether the scan has ended, by the end of the block or by an error.
    pub closed spec fn is_done(&self) -> bool {
        self.done
    }

    /// A scan before the first line.
    pub fn new() -> (r: Loader)
        ensures
            r.wf(),
            !r.is_done(),
            r.style_spec() == DocStyle::NoDoc,
            r.depth_spec() == 0,
            r.taken() == Seq::<Seq<char>>::empty(),
    {
        let r = Loader { style: DocStyle::NoDoc, depth: 0, lines: Vec::new(), done: false };
        proof {
            assert(texts(r.lines@) =~= Seq::<Seq<char>>::empty());
        }
        r
    }

    /// Whether the scan has ended.
    pub fn done(&self) -> (r: bool)
        ensures
            r == self.is_done(),
    {
        self.done
    }

    /// The style that the scan is in.
    pub fn style(&self) -> (r: DocStyle)
        ensures
            r == self.style_spec(),
    {
        self.style
    }

    fn take(&mut self, line: String)
        requires
            old(self).depth <= (old(self).lines@.len() + 1) * usize::MAX,
            one_style(old(self).style, old(self).taken() + seq![line@]),
        ensures
            final(self).style == old(self).style,
            final(self).depth == old(self).depth,
            final(self).done == old(self).done,
            final(self).taken() == old(self).taken() + seq![line@],
            final(self).depth <= final(self).lines@.len() * usize::MAX,
            one_style(final(self).style, final(self).taken()),
    {
        self.lines.push(line);
        proof {
            lemma_push_text(old(self).lines@, self.lines@, line);
        }
    }

    /// Feeds the next line of the source file to the scan. `Ok(true)` asks
    /// for another line, `Ok(false)` says that the block has ended.
    pub fn feed(&mut self, line: String) -> (r: Result<bool, LoadError>)
        requires
            old(self).wf(),
            !old(self).is_done(),
        ensures
            final(self).wf(),
            match step(old(self).style_spec(), old(self).depth_spec(), line@) {
                Step::Go(next, level, taken) => {
                    &&& r == Ok::<bool, LoadError>(true)
                    &&& !final(self).is_done()
                    &&& final(self).style_spec() == next
                    &&& final(self).depth_spec() == level
                    &&& final(self).taken() == old(self).taken() + taken
                },
                Step::Stop(taken) => {
                    &&& r == Ok::<bool, LoadError>(false)
                    &&& final(self).is_done()
                    &&& final(self).taken() == old(self).taken() + taken
                },
                Step::Fail(e) => {
                    &&& r == Err::<bool, LoadError>(e)
                    &&& final(self).is_done()
                    &&& final(self).taken() == old(self).taken()
                },
            },
    {
        proof {
            reveal_strlit("/*");
            reveal_strlit("*/");
            assert(self.taken() + Seq::<Seq<char>>::empty() =~= self.taken());
            assert(self.lines@.len() * usize::MAX <= (self.lines@.len() + 1) * usize::MAX)
                by (nonlinear_arith);
        }
        match self.style {
            DocStyle::NoDoc => {
                if starts_with(line.as_str(), "//!") {
                    self.style = DocStyle::SingleLine;
                    self.take(line);
                } else if starts_with(line.as_str(), "/*!") {
                    self.style = DocStyle::MultiLine;
                    self.take(line);
                }
                Ok(true)
            },
            DocStyle::SingleLine => {
                if starts_with(line.as_str(), "//!") {
                    self.take(line);
                    Ok(true)
                } else if starts_with(line.as_str(), "/*!") {
                    self.done = true;
                    Err(LoadError::MixedCommentStyle)
                } else {
                    self.done = true;
                    Ok(false)
                }
            },
            DocStyle::MultiLine => {
                let cs = to_chars(line.as_str());
                let closer = to_chars("*/");
                let opens: usize = count(&cs, &to_chars("/*"));
                let closes: usize = count(&cs, &closer);
                let held: usize = self.lines.len();
                proof {
                    let n = held as int;
                    assert(self.depth + opens <= (n + 1) * usize::MAX) by (nonlinear_arith)
                        requires
                            self.depth <= n * usize::MAX,
                            opens <= usize::MAX,
                    ;
                    assert((n + 1) * usize::MAX <= u128::MAX) by (nonlinear_arith)
                        requires
                            n <= usize::MAX,
                            usize::MAX <= u64::MAX,
                    ;
                }
                let level: u128 = self.depth + opens as u128;
                if closes as u128 > level {
                    self.done = true;
                    match rfind(&cs, &closer) {
                        Some(pos) => {
                            if pos > 0 {
                                self.take(line.as_str().substring_char(0, pos).to_owned());
                            }
                        },
                        None => {
                            if cs.len() > 0 {
                                self.take(line);
                            }
                        },
                    }
                    Ok(false)
                } else {
                    self.depth = level - closes as u128;
                    self.take(line);
                    Ok(true)
                }
            },
        }
    }

    /// The block as far as it was taken.
    pub fn finish(self) -> (r: DocBlock)
        requires
            self.wf(),
        ensures
            r.wf(),
            r.style == self.style_spec(),
            texts(r.lines@) == self.taken(),
    {
        DocBlock { style: self.style, lines: self.lines }
    }
}

/// Extracts the raw lines of the doc block from the lines of a source file.
///
/// The result holds the block's lines as they stand in the source, markers
/// included. In block style the closing line is cut before its last `*/` and
/// left out where nothing remains. A file without a doc block gives no lines.
pub fn load_docs(lines: &Vec<String>) -> (r: Result<Vec<String>, LoadError>)
    ensures
        match r {
            Ok(v) => load_spec(texts(lines@)) == Ok::<Seq<Seq<char>>, LoadError>(texts(v@)),
            Err(e) => load_spec(texts(lines@)) == Err::<Seq<Seq<char>>, LoadError>(e),
        },
{
    match load_block(lines) {
        Ok(block) => Ok(block.lines),
        Err(e) => Err(e),
    }
}

/// Extracts the doc block from the lines of a source file, with its style.
pub fn load_block(lines: &Vec<String>) -> (r: Result<DocBlock, LoadError>)
    ensures
        match r {
            Ok(block) => block.wf() && load_spec(texts(lines@)) == Ok::<Seq<Seq<char>>, LoadError>(
                texts(block.lines@),
            ),
            Err(e) => load_spec(texts(lines@)) == Err::<Seq<Seq<char>>, LoadError>(e),
        },
{
    let n: usize = lines.len();
    let mut loader = Loader::new();
    let mut i: usize = 0;
    let ghost all = texts(lines@);
    proof {
        match load_spec(all) {
            Ok(v) => {
                assert(Seq::<Seq<char>>::empty() + v =~= v);
            },
            Err(_) => {},
        }
    }
    while i < n
        invariant
            i <= n,
            n == lines@.len(),
            all == texts(lines@),
            loader.wf(),
            !loader.is_done(),
            load_spec(all) == with_front(
                loader.taken(),
                scan(all, i as int, loader.style_spec(), loader.depth_spec()),
            ),
        decreases n - i,
    {
        let ghost before = loader.taken();
        let ghost style = loader.style_spec();
        let ghost depth = loader.depth_spec();
        proof {
            assert(all[i as int] == lines@[i as int]@);
        }
        match loader.feed(lines[i].clone()) {
            Ok(true) => {
                proof {
                    match step(style, depth, all[i as int]) {
                        Step::Go(next, level, taken) => {
                            lemma_front_twice(before, taken, scan(all, i + 1, next, level));
                        },
                        _ => {},
                    }
                }
            },
            Ok(false) => {
                return Ok(loader.finish());
            },
            Err(e) => {
                return Err(e);
            },
        }
        i += 1;
    }
    proof {
        assert(loader.taken() + Seq::<Seq<char>>::empty() =~= loader.taken());
    }
    Ok(loader.finish())
}

/// Whether `line` begins with neither doc marker.
pub open spec fn is_plain(line: Seq<char>) -> bool {
    !has_prefix(line, line_mark()) && !has_prefix(line, block_open())
}

/// The nesting depth reached after the lines `from..upto`, starting at 0.
pub open spec fn depth_between(lines: Seq<Seq<char>>, from: int, upto: int) -> int
    decreases upto - from,
{
    if upto <= from {
        0
    } else {
        depth_after(depth_between(lines, from, upto - 1), lines[upto - 1])
    }
}

proof fn lemma_markers_differ(line: Seq<char>)
    ensures
        !(has_prefix(line, line_mark()) && has_prefix(line, block_open())),
{
    reveal_strlit("//!");
    reveal_strlit("/*!");
    if has_prefix(line, line_mark()) && has_prefix(line, block_open()) {
        assert(line.subrange(0, 3)[1] == '/');
        assert(line.subrange(0, 3)[1] == '*');
    }
}

proof fn lemma_skip_plain(lines: Seq<Seq<char>>, first: int, i: int)
    requires
        0 <= i <= first <= lines.len(),
        forall|k: int| 0 <= k < first ==> is_plain(#[trigger] lines[k]),
    ensures
        scan(lines, i, DocStyle::NoDoc, 0) == scan(lines, first, DocStyle::NoDoc, 0),
    decreases first - i,
{
    if i < first {
        assert(is_plain(lines[i]));
        lemma_skip_plain(lines, first, i + 1);
    }
}

proof fn lemma_run_into_opener(lines: Seq<Seq<char>>, i: int, opener: int)
    requires
        0 <= i <= opener < lines.len(),
        forall|k: int| i <= k < opener ==> has_prefix(#[trigger] lines[k], line_mark()),
        has_prefix(lines[opener], block_open()),
    ensures
        scan(lines, i, DocStyle::SingleLine, 0) == Err::<Seq<Seq<char>>, LoadError>(
            LoadError::MixedCommentStyle,
        ),
    decreases opener - i,
{
    if i < opener {
        assert(has_prefix(lines[i], line_mark()));
        lemma_run_into_opener(lines, i + 1, opener);
    } else {
        lemma_markers_differ(lines[opener]);
    }
}

proof fn lemma_block_scan_ok(lines: Seq<Seq<char>>, i: int, depth: int)
    ensures
        scan(lines, i, DocStyle::MultiLine, depth) is Ok,
    decreases lines.len() - i,
{
    if 0 <= i < lines.len() {
        lemma_block_scan_ok(lines, i + 1, depth_after(depth, lines[i]));
    }
}

proof fn lemma_lone_closer()
    ensures
        depth_after(0, nest_close()) < 0,
        closing_text(nest_close()) == Seq::<Seq<char>>::empty(),
{
    reveal_strlit("/*");
    reveal_strlit("*/");
    let s = nest_close();
    let p = nest_open();
    assert(s.subrange(0, 2)[0] == '*');
    assert(!has_prefix(s, p));
    assert(count_matches(s.drop_first(), p) == 0);
    assert(count_matches(s, p) == 0);
    assert(s.subrange(0, 2) =~= s);
    assert(has_prefix(s, s));
    assert(count_matches(s.subrange(2, 2), s) == 0);
    assert(count_matches(s, s) == 1);
    assert(!occurs_at(s, s, 2));
    assert(!occurs_at(s, s, 1));
    assert(occurs_at(s, s, 0));
    assert(last_at_or_before(s, s, 0) == 0);
    assert(last_at_or_before(s, s, 1) == 0);
    assert(last_at_or_before(s, s, 2) == 0);
    assert(last_index(s, s) == 0);
    assert(before_last(s, s).len() == 0);
}

proof fn lemma_block_body(lines: Seq<Seq<char>>, first: int, last: int, k: int)
    requires
        0 <= first < k <= last < lines.len(),
        forall|j: int| first < j <= last ==> 0 <= #[trigger] depth_between(lines, first + 1, j),
        depth_between(lines, first + 1, last) == 0,
        lines[last] == nest_close(),
    ensures
        scan(lines, k, DocStyle::MultiLine, depth_between(lines, first + 1, k)) == Ok::<
            Seq<Seq<char>>,
            LoadError,
        >(lines.subrange(k, last)),
    decreases last - k,
{
    if k == last {
        lemma_lone_closer();
        assert(lines.subrange(k, last) =~= Seq::<Seq<char>>::empty());
    } else {
        let d = depth_between(lines, first + 1, k);
        assert(depth_after(d, lines[k]) == depth_between(lines, first + 1, k + 1));
        assert(0 <= depth_between(lines, first + 1, k + 1));
        lemma_block_body(lines, first, last, k + 1);
        assert(seq![lines[k]] + lines.subrange(k + 1, last) =~= lines.subrange(k, last));
    }
}

/// A file in which no line begins with a doc marker has an empty doc block.
pub proof fn law_no_marker_no_block(lines: Seq<Seq<char>>)
    requires
        forall|k: int| 0 <= k < lines.len() ==> is_plain(#[trigger] lines[k]),
    ensures
        load_spec(lines) == Ok::<Seq<Seq<char>>, LoadError>(Seq::empty()),
{
    lemma_skip_plain(lines, lines.len() as int, 0);
}

/// Style exclusivity, first half: where the first marker of a file is `//!`
/// and the run of `//!` lines that it starts is followed at once by a line
/// that begins with `/*!`, loading fails with `MixedCommentStyle`.
pub proof fn law_mixed_styles_refused(lines: Seq<Seq<char>>, first: int, opener: int)
    requires
        0 <= first < opener < lines.len(),
        forall|k: int| 0 <= k < first ==> is_plain(#[trigger] lines[k]),
        forall|k: int| first <= k < opener ==> has_prefix(#[trigger] lines[k], line_mark()),
        has_prefix(lines[opener], block_open()),
    ensures
        load_spec(lines) == Err::<Seq<Seq<char>>, LoadError>(LoadError::MixedCommentStyle),
{
    lemma_skip_plain(lines, first, 0);
    assert(has_prefix(lines[first], line_mark()));
    lemma_run_into_opener(lines, first + 1, opener);
}

/// Style exclusivity, second half: where the first marker of a file is
/// `/*!`, loading succeeds whatever the later lines hold, `//!` lines
/// included.
pub proof fn law_block_style_accepted(lines: Seq<Seq<char>>, first: int)
    requires
        0 <= first < lines.len(),
        forall|k: int| 0 <= k < first ==> is_plain(#[trigger] lines[k]),
        has_prefix(lines[first], block_open()),
    ensures
        load_spec(lines) is Ok,
{
    lemma_skip_plain(lines, first, 0);
    lemma_markers_differ(lines[first]);
    lemma_block_scan_ok(lines, first + 1, 0);
}

/// Nesting balance: in a block opened at line `first`, where the inner
/// `/*` and `*/` of the lines up to `last` never close more than was opened
/// and are all matched when line `last`, a lone `*/`, is reached, the block is
/// exactly the lines `first..last`, unchanged.
pub proof fn law_nesting_balance(lines: Seq<Seq<char>>, first: int, last: int)
    requires
        0 <= first < last < lines.len(),
        forall|k: int| 0 <= k < first ==> is_plain(#[trigger] lines[k]),
        has_prefix(lines[first], block_open()),
        forall|j: int| first < j <= last ==> 0 <= #[trigger] depth_between(lines, first + 1, j),
        depth_between(lines, first + 1, last) == 0,
        lines[last] == nest_close(),
    ensures
        load_spec(lines) == Ok::<Seq<Seq<char>>, LoadError>(lines.subrange(first, last)),
{
    lemma_skip_plain(lines, first, 0);
    lemma_markers_differ(lines[first]);
    lemma_block_body(lines, first, last, first + 1);
    assert(seq![lines[first]] + lines.subrange(first + 1, last) =~= lines.subrange(first, last));
}

proof fn lemma_line_scan_marked(lines: Seq<Seq<char>>, i: int)
    ensures
        scan(lines, i, DocStyle::SingleLine, 0) matches Ok(v) ==> forall|k: int|
            0 <= k < v.len() ==> has_prefix(#[trigger] v[k], line_mark()),
    decreases lines.len() - i,
{
    if 0 <= i < lines.len() {
        lemma_line_scan_marked(lines, i + 1);
    }
}

proof fn lemma_scan_single_style(lines: Seq<Seq<char>>, i: int)
    ensures
        scan(lines, i, DocStyle::NoDoc, 0) matches Ok(v) ==> v.len() == 0 || has_prefix(
            v[0],
            block_open(),
        ) || forall|k: int| 0 <= k < v.len() ==> has_prefix(#[trigger] v[k], line_mark()),
    decreases lines.len() - i,
{
    if 0 <= i < lines.len() {
        lemma_scan_single_style(lines, i + 1);
        lemma_line_scan_marked(lines, i + 1);
    }
}

/// One style throughout: a doc block that was loaded is empty, or opens with
/// `/*!`, or consists of lines that each begin with `//!`.
pub proof fn law_single_style(lines: Seq<Seq<char>>)
    ensures
        load_spec(lines) matches Ok(v) ==> v.len() == 0 || has_prefix(v[0], block_open())
            || forall|k: int| 0 <= k < v.len() ==> has_prefix(#[trigger] v[k], line_mark()),
{
    lemma_scan_single_style(lines, 0);
}

/// The index of the first line from `i` on that begins with a doc marker;
/// the number of lines where there is none.
pub open spec fn first_marked(lines: Seq<Seq<char>>, i: int) -> int
    decreases lines.len() - i,
{
    if i < 0 || i >= lines.len() {
        lines.len() as int
    } else if !is_plain(lines[i]) {
        i
    } else {
        first_marked(lines, i + 1)
    }
}

/// The index of the first line from `i` on that does not begin with `//!`;
/// the number of lines where there is none.
pub open spec fn line_run_end(lines: Seq<Seq<char>>, i: int) -> int
    decreases lines.len() - i,
{
    if i < 0 || i >= lines.len() {
        lines.len() as int
    } else if !has_prefix(lines[i], line_mark()) {
        i
    } else {
        line_run_end(lines, i + 1)
    }
}

proof fn lemma_first_marked(lines: Seq<Seq<char>>, i: int)
    requires
        0 <= i <= lines.len(),
    ensures
        i <= first_marked(lines, i) <= lines.len(),
        scan(lines, i, DocStyle::NoDoc, 0) == scan(
            lines,
            first_marked(lines, i),
            DocStyle::NoDoc,
            0,
        ),
    decreases lines.len() - i,
{
    if i < lines.len() && is_plain(lines[i]) {
        lemma_first_marked(lines, i + 1);
    }
}

proof fn lemma_line_run(lines: Seq<Seq<char>>, i: int)
    requires
        0 <= i <= lines.len(),
    ensures
        i <= line_run_end(lines, i) <= lines.len(),
        scan(lines, i, DocStyle::SingleLine, 0) == (if line_run_end(lines, i) < lines.len()
            && has_prefix(lines[line_run_end(lines, i)], block_open()) {
            Err::<Seq<Seq<char>>, LoadError>(LoadError::MixedCommentStyle)
        } else {
            Ok(lines.subrange(i, line_run_end(lines, i)))
        }),
    decreases lines.len() - i,
{
    if i < lines.len() && has_prefix(lines[i], line_mark()) {
        lemma_line_run(lines, i + 1);
        let end = line_run_end(lines, i);
        assert(seq![lines[i]] + lines.subrange(i + 1, end) =~= lines.subrange(i, end));
    } else {
        assert(lines.subrange(i, i) =~= Seq::<Seq<char>>::empty());
    }
}

/// Line style in full: where the first marker of a file is `//!`, the block
/// is the unbroken run of `//!` lines that starts there, as the lines stand;
/// and loading fails instead where the line after the run begins with `/*!`.
pub proof fn law_line_style_block(lines: Seq<Seq<char>>)
    requires
        first_marked(lines, 0) < lines.len(),
        has_prefix(lines[first_marked(lines, 0)], line_mark()),
    ensures
        ({
            let first = first_marked(lines, 0);
            let end = line_run_end(lines, first);
            &&& 0 <= first < end <= lines.len()
            &&& load_spec(lines) == (if end < lines.len() && has_prefix(lines[end], block_open()) {
                Err::<Seq<Seq<char>>, LoadError>(LoadError::MixedCommentStyle)
            } else {
                Ok(lines.subrange(first, end))
            })
        }),
{
    let first = first_marked(lines, 0);
    lemma_first_marked(lines, 0);
    lemma_line_run(lines, first + 1);
    let end = line_run_end(lines, first);
    assert(end == line_run_end(lines, first + 1));
    assert(seq![lines[first]] + lines.subrange(first + 1, end) =~= lines.subrange(first, end));
}

/// The index of the line that closes a block comment whose body starts at
/// line `i` at nesting depth `depth`: the first line on which more is closed
/// than is open. The number of lines where the comment is never closed.
pub open spec fn block_end(lines: Seq<Seq<char>>, i: int, depth: int) -> int
    decreases lines.len() - i,
{
    if i < 0 || i >= lines.len() {
        lines.len() as int
    } else if depth_after(depth, lines[i]) < 0 {
        i
    } else {
        block_end(lines, i + 1, depth_after(depth, lines[i]))
    }
}

/// What the closing line of a block gives, where the block has one.
pub open spec fn closing_lines(lines: Seq<Seq<char>>, end: int) -> Seq<Seq<char>> {
    if 0 <= end < lines.len() {
        closing_text(lines[end])
    } else {
        Seq::empty()
    }
}

proof fn lemma_block_run(lines: Seq<Seq<char>>, i: int, depth: int)
    requires
        0 <= i <= lines.len(),
    ensures
        i <= block_end(lines, i, depth) <= lines.len(),
        scan(lines, i, DocStyle::MultiLine, depth) == Ok::<Seq<Seq<char>>, LoadError>(
            lines.subrange(i, block_end(lines, i, depth)) + closing_lines(
                lines,
                block_end(lines, i, depth),
            ),
        ),
    decreases lines.len() - i,
{
    let end = block_end(lines, i, depth);
    if i < lines.len() && depth_after(depth, lines[i]) >= 0 {
        lemma_block_run(lines, i + 1, depth_after(depth, lines[i]));
        assert(seq![lines[i]] + (lines.subrange(i + 1, end) + closing_lines(lines, end))
            =~= lines.subrange(i, end) + closing_lines(lines, end));
    } else {
        assert(lines.subrange(i, i) + closing_lines(lines, end) =~= closing_lines(lines, end));
    }
}

/// Block style in full: where the first marker of a file is `/*!`, the block
/// is that line, the lines below it up to the line that closes the comment,
/// as they stand, and of the closing line the text before its last `*/`, if
/// there is any.
pub proof fn law_block_style_block(lines: Seq<Seq<char>>)
    requires
        first_marked(lines, 0) < lines.len(),
        has_prefix(lines[first_marked(lines, 0)], block_open()),
    ensures
        ({
            let first = first_marked(lines, 0);
            let end = block_end(lines, first + 1, 0);
            &&& 0 <= first < end <= lines.len()
            &&& load_spec(lines) == Ok::<Seq<Seq<char>>, LoadError>(
                lines.subrange(first, end) + closing_lines(lines, end),
            )
        }),
{
    let first = first_marked(lines, 0);
    lemma_first_marked(lines, 0);
    lemma_markers_differ(lines[first]);
    lemma_block_run(lines, first + 1, 0);
    let end = block_end(lines, first + 1, 0);
    assert(seq![lines[first]] + (lines.subrange(first + 1, end) + closing_lines(lines, end))
        =~= lines.subrange(first, end) + closing_lines(lines, end));
}

} // verus!
