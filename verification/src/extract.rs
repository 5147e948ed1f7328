//! Taking the comment markers off doc lines.
//!
//! `normalize_line` strips one marked line and `strip_docs` a whole doc block
//! as the loader found it. `DocExtractor` does both for the lines of a source
//! file and hands the texts out one at a time.

use vstd::prelude::*;
use vstd::string::*;
use crate::load::{
    block_open, depth_between, is_plain, law_nesting_balance, line_mark, load_docs, load_spec,
    nest_close, one_style, DocBlock, DocStyle, LoadError,
};
use crate::text::{has_prefix, is_blank, is_blank_str, starts_with, texts, trim_end, trim_end_str};

verus! {

/// Whether `line` begins with one of the two doc markers.
pub open spec fn has_marker(line: Seq<char>) -> bool {
    has_prefix(line, line_mark()) || has_prefix(line, block_open())
}

/// The text of a marked line: the line without its first three characters
/// and without the space that follows them, if there is one; empty where
/// only white space remains.
pub open spec fn normalized(line: Seq<char>) -> Seq<char> {
    let from: int = if line.len() > 3 && line[3] == ' ' {
        4
    } else {
        3
    };
    let rest = line.subrange(from, line.len() as int);
    if is_blank(rest) {
        Seq::empty()
    } else {
        rest
    }
}

/// The text of one line of a line-style block.
pub open spec fn strip_marked(line: Seq<char>) -> Seq<char> {
    if has_prefix(line, line_mark()) {
        normalized(line)
    } else {
        line
    }
}

/// What a line that may stand alone as a marker gives: its text, unless
/// that is empty.
pub open spec fn unless_empty(text: Seq<char>) -> Seq<Seq<char>> {
    if text.len() == 0 {
        Seq::empty()
    } else {
        seq![text]
    }
}

/// The texts of the raw lines of a doc block. A block whose first line
/// opens with `/*!` is in block style: that line is stripped of its marker
/// and left out where nothing remains, and the lines below it lose their
/// trailing white space. Any other block is in line style: each line is
/// stripped of its marker.
pub open spec fn stripped_docs(raw: Seq<Seq<char>>) -> Seq<Seq<char>> {
    if raw.len() == 0 {
        Seq::empty()
    } else if has_prefix(raw[0], block_open()) {
        unless_empty(normalized(raw[0])) + Seq::new(
            (raw.len() - 1) as nat,
            |i: int| trim_end(raw[i + 1]),
        )
    } else {
        Seq::new(raw.len(), |i: int| strip_marked(raw[i]))
    }
}

proof fn lemma_marker_len(line: Seq<char>)
    requires
        has_marker(line),
    ensures
        line.len() >= 3,
{
    reveal_strlit("//!");
    reveal_strlit("/*!");
}

/// Strips the marker from a line that begins with `//!` or `/*!`, and one
/// space after it. A line without a marker has no text to take: callers test
/// for the marker first.
pub fn normalize_line(line: String) -> (r: String)
    requires
        has_marker(line@),
    ensures
        r@ == normalized(line@),
{
    let s = line.as_str();
    let n: usize = s.unicode_len();
    proof {
        lemma_marker_len(line@);
    }
    let from: usize = if n > 3 && s.get_char(3) == ' ' {
        4
    } else {
        3
    };
    let rest = s.substring_char(from, n);
    if is_blank_str(rest) {
        String::new()
    } else {
        rest.to_owned()
    }
}

/// Strips the comment markers from the raw lines of a doc block.
pub fn strip_docs(raw: &Vec<String>) -> (out: Vec<String>)
    ensures
        texts(out@) == stripped_docs(texts(raw@)),
{
    let n: usize = raw.len();
    let mut out: Vec<String> = Vec::new();
    let ghost all = texts(raw@);
    if n == 0 {
        proof {
            assert(texts(out@) =~= Seq::<Seq<char>>::empty());
        }
        return out;
    }
    proof {
        assert(all[0] == raw@[0]@);
    }
    if starts_with(raw[0].as_str(), "/*!") {
        let first = normalize_line(raw[0].clone());
        if first.as_str().unicode_len() > 0 {
            out.push(first);
        }
        let ghost head = texts(out@);
        proof {
            assert(head =~= unless_empty(normalized(all[0])));
        }
        let mut i: usize = 1;
        while i < n
            invariant
                1 <= i <= n,
                n == raw@.len(),
                all == texts(raw@),
                texts(out@) =~= head + Seq::new((i - 1) as nat, |k: int| trim_end(all[k + 1])),
            decreases n - i,
        {
            let ghost before = out@;
            proof {
                assert(all[i as int] == raw@[i as int]@);
            }
            out.push(trim_end_str(raw[i].as_str()));
            proof {
                assert(texts(out@) =~= texts(before).push(trim_end(all[i as int])));
                assert(Seq::new(i as nat, |k: int| trim_end(all[k + 1])) =~= Seq::new(
                    (i - 1) as nat,
                    |k: int| trim_end(all[k + 1]),
                ).push(trim_end(all[i as int])));
            }
            i += 1;
        }
        out
    } else {
        let mut i: usize = 0;
        while i < n
            invariant
                i <= n,
                n == raw@.len(),
                all == texts(raw@),
                texts(out@) =~= Seq::new(i as nat, |k: int| strip_marked(all[k])),
            decreases n - i,
        {
            let ghost before = out@;
            proof {
                assert(all[i as int] == raw@[i as int]@);
            }
            if starts_with(raw[i].as_str(), "//!") {
                out.push(normalize_line(raw[i].clone()));
            } else {
                out.push(raw[i].clone());
            }
            proof {
                assert(texts(out@) =~= texts(before).push(strip_marked(all[i as int])));
                assert(Seq::new((i + 1) as nat, |k: int| strip_marked(all[k])) =~= Seq::new(
                    i as nat,
                    |k: int| strip_marked(all[k]),
                ).push(strip_marked(all[i as int])));
            }
            i += 1;
        }
        out
    }
}

/// The texts of the doc block of a source file, or the error that the file
/// earns.
pub open spec fn extract_spec(lines: Seq<Seq<char>>) -> Result<Seq<Seq<char>>, LoadError> {
    match load_spec(lines) {
        Ok(raw) => Ok(stripped_docs(raw)),
        Err(e) => Err(e),
    }
}

/// A pull-based reader of the doc block of a source file: it hands out the
/// texts of the block's lines, one at a time.
pub struct DocExtractor {
    lines: Vec<String>,
    pos: usize,
}

impl DocExtractor {
    /// The reader never stands beyond the end of its lines.
    pub closed spec fn wf(&self) -> bool {
        self.pos <= self.lines@.len()
    }

    /// The doc texts that the reader has yet to hand out.
    pub closed spec fn remaining(&self) -> Seq<Seq<char>> {
        texts(self.lines@).subrange(self.pos as int, self.lines@.len() as int)
    }

    /// A reader at the first line of the doc block among `lines`. It fails
    /// where the lines mix the two comment styles.
    pub fn new(lines: Vec<String>) -> (r: Result<DocExtractor, LoadError>)
        ensures
            match r {
                Ok(reader) => reader.wf() && extract_spec(texts(lines@)) == Ok::<
                    Seq<Seq<char>>,
                    LoadError,
                >(reader.remaining()),
                Err(e) => extract_spec(texts(lines@)) == Err::<Seq<Seq<char>>, LoadError>(e),
            },
    {
        match load_docs(&lines) {
            Ok(raw) => {
                let stripped = strip_docs(&raw);
                proof {
                    assert(texts(stripped@).subrange(0, stripped@.len() as int) =~= texts(
                        stripped@,
                    ));
                }
                Ok(DocExtractor { lines: stripped, pos: 0 })
            },
            Err(e) => Err(e),
        }
    }

    /// The next doc text, or `None` when the block is used up.
    pub fn next(&mut self) -> (r: Option<String>)
        requires
            old(self).wf(),
        ensures
            final(self).wf(),
            match r {
                Some(text) => old(self).remaining() == seq![text@] + final(self).remaining(),
                None => old(self).remaining().len() == 0 && final(self).remaining().len() == 0,
            },
    {
        if self.pos < self.lines.len() {
            let text = self.lines[self.pos].clone();
            proof {
                assert(old(self).remaining() =~= seq![text@] + texts(self.lines@).subrange(
                    self.pos + 1,
                    self.lines@.len() as int,
                ));
            }
            self.pos = self.pos + 1;
            Some(text)
        } else {
            None
        }
    }

    /// All the doc texts that the reader has yet to hand out.
    pub fn collect(self) -> (out: Vec<String>)
        requires
            self.wf(),
        ensures
            texts(out@) == self.remaining(),
    {
        let mut reader = self;
        let mut out: Vec<String> = Vec::new();
        proof {
            assert(texts(out@) + reader.remaining() =~= reader.remaining());
        }
        loop
            invariant
                reader.wf(),
                texts(out@) + reader.remaining() == self.remaining(),
            decreases reader.remaining().len(),
        {
            let ghost before = out@;
            let ghost left = reader.remaining();
            match reader.next() {
                Some(text) => {
                    out.push(text);
                    proof {
                        assert(texts(out@) =~= texts(before) + seq![text@]);
                        assert((texts(before) + seq![text@]) + reader.remaining() =~= texts(before)
                            + (seq![text@] + reader.remaining()));
                    }
                },
                None => {
                    proof {
                        assert(texts(out@) + left =~= texts(out@));
                    }
                    return out;
                },
            }
        }
    }
}

/// Lists of source lines from which a reader of the doc block can be made.
pub trait DocExtract: Sized {
    /// The texts of the lines.
    spec fn source_lines(&self) -> Seq<Seq<char>>;

    /// A reader at the first line of the doc block among the lines.
    fn extract_doc(self) -> (r: Result<DocExtractor, LoadError>)
        ensures
            match r {
                Ok(reader) => reader.wf() && extract_spec(self.source_lines()) == Ok::<
                    Seq<Seq<char>>,
                    LoadError,
                >(reader.remaining()),
                Err(e) => extract_spec(self.source_lines()) == Err::<Seq<Seq<char>>, LoadError>(e),
            },
    ;
}

impl DocExtract for Vec<String> {
    open spec fn source_lines(&self) -> Seq<Seq<char>> {
        texts(self@)
    }

    fn extract_doc(self) -> (r: Result<DocExtractor, LoadError>) {
        DocExtractor::new(self)
    }
}

/// Nesting balance, on the texts: for a block comment that is opened by a
/// line holding `/*!` alone and closed by a line holding `*/` alone, with
/// every inner `/*` and `*/` between them matched, the doc texts are exactly
/// the lines between the two, less their trailing white space.
pub proof fn law_block_between(lines: Seq<Seq<char>>, first: int, last: int)
    requires
        0 <= first < last < lines.len(),
        forall|k: int| 0 <= k < first ==> is_plain(#[trigger] lines[k]),
        lines[first] == block_open(),
        forall|j: int| first < j <= last ==> 0 <= #[trigger] depth_between(lines, first + 1, j),
        depth_between(lines, first + 1, last) == 0,
        lines[last] == nest_close(),
    ensures
        extract_spec(lines) == Ok::<Seq<Seq<char>>, LoadError>(
            Seq::new((last - first - 1) as nat, |k: int| trim_end(lines[first + 1 + k])),
        ),
{
    reveal_strlit("/*!");
    let opener = lines[first];
    assert(opener.subrange(0, 3) =~= opener);
    law_nesting_balance(lines, first, last);
    let raw = lines.subrange(first, last);
    assert(opener.subrange(3, 3) =~= Seq::<char>::empty());
    assert(normalized(opener) =~= Seq::<char>::empty());
    assert(stripped_docs(raw) =~= Seq::new(
        (last - first - 1) as nat,
        |k: int| trim_end(lines[first + 1 + k]),
    ));
}

/// In a line-style block every line has the marker, so every line gives the
/// text behind its marker.
pub proof fn law_strip_line_block(raw: Seq<Seq<char>>)
    requires
        one_style(DocStyle::SingleLine, raw),
    ensures
        stripped_docs(raw) == Seq::new(raw.len(), |i: int| normalized(raw[i])),
{
    reveal_strlit("//!");
    reveal_strlit("/*!");
    assert(has_prefix(raw[0], line_mark()));
    if has_prefix(raw[0], block_open()) {
        assert(raw[0].subrange(0, 3)[1] == '/');
        assert(raw[0].subrange(0, 3)[1] == '*');
    }
    assert(stripped_docs(raw) =~= Seq::new(raw.len(), |i: int| normalized(raw[i])));
}

/// Strips the comment markers from a doc block.
pub fn strip_block(block: &DocBlock) -> (out: Vec<String>)
    requires
        block.wf(),
    ensures
        texts(out@) == stripped_docs(texts(block.lines@)),
        block.style == DocStyle::NoDoc ==> out@.len() == 0,
        block.style == DocStyle::SingleLine ==> texts(out@) == Seq::new(
            block.lines@.len(),
            |i: int| normalized(block.lines@[i]@),
        ),
{
    proof {
        if block.style == DocStyle::SingleLine {
            law_strip_line_block(texts(block.lines@));
            assert(Seq::new(texts(block.lines@).len(), |i: int| normalized(texts(block.lines@)[i]))
                =~= Seq::new(block.lines@.len(), |i: int| normalized(block.lines@[i]@)));
        }
    }
    let out = strip_docs(&block.lines);
    proof {
        assert(texts(out@).len() == out@.len());
        assert(texts(block.lines@).len() == block.lines@.len());
    }
    out
}

} // verus!
