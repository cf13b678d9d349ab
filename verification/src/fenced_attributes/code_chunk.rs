//! The language tag and the attributes that a fence header carries.

use vstd::prelude::*;
use crate::fenced_attributes::attributes::{
    attributes_result, fresh_id, parsed_of, Attributes, AttributesError, AttributesView,
};
use crate::text::{
    chars_of, clone_opt_string, opt_text, scan, scan_back, slice, span_end, substring, trimmed,
    Class,
};

verus! {

/// Code chunk information
#[derive(Debug, PartialEq, Eq)]
pub struct CodeChunk {
    /// code chunk language
    pub lang: Option<String>,
    /// code chunk attributes
    pub attributes: Attributes,
}

pub struct CodeChunkView {
    pub lang: Option<Seq<char>>,
    pub attributes: AttributesView,
}

impl View for CodeChunk {
    type V = CodeChunkView;

    open spec fn view(&self) -> CodeChunkView {
        CodeChunkView { lang: opt_text(self.lang), attributes: self.attributes@ }
    }
}

impl Default for CodeChunk {
    /// No language, no attributes.
    fn default() -> (res: CodeChunk)
        ensures
            res@ == (CodeChunkView { lang: None, attributes: AttributesView::empty() }),
    {
        CodeChunk { lang: None, attributes: Attributes::default() }
    }
}

impl Clone for CodeChunk {
    fn clone(&self) -> (res: CodeChunk)
        ensures
            res@ == self@,
    {
        CodeChunk { lang: clone_opt_string(&self.lang), attributes: self.attributes.clone() }
    }
}

/// The view of an optional code chunk.
pub open spec fn opt_chunk(chunk: Option<CodeChunk>) -> Option<CodeChunkView> {
    match chunk {
        Some(c) => Some(c@),
        None => None,
    }
}

/// A copy of an optional code chunk.
pub fn clone_opt_chunk(chunk: &Option<CodeChunk>) -> (res: Option<CodeChunk>)
    ensures
        opt_chunk(res) == opt_chunk(*chunk),
{
    match chunk {
        Some(c) => Some(c.clone()),
        None => None,
    }
}

/// The two parts of a fence header, as text.
#[derive(Debug, PartialEq, Eq)]
pub struct FenceHeader {
    /// The language tag; it may be empty.
    pub lang: String,
    /// What stands between the braces; empty where there are none.
    pub attributes: String,
}

pub struct FenceHeaderView {
    pub lang: Seq<char>,
    pub attributes: Seq<char>,
}

impl View for FenceHeader {
    type V = FenceHeaderView;

    open spec fn view(&self) -> FenceHeaderView {
        FenceHeaderView { lang: self.lang@, attributes: self.attributes@ }
    }
}

/// The view of an optional header.
pub open spec fn opt_header(header: Option<FenceHeader>) -> Option<FenceHeaderView> {
    match header {
        Some(h) => Some(h@),
        None => None,
    }
}

/// How long the fence is that starts at `from`: a run of backticks if
/// there are three or more of them, else a run of tildes.
pub open spec fn fence_run(s: Seq<char>, from: int) -> int {
    let ticks = span_end(s, from, Class::Only('`')) - from;
    if ticks >= 3 {
        ticks
    } else {
        span_end(s, from, Class::Only('~')) - from
    }
}

/// Whether `line` holds a fence: spaces, if any, then three or more
/// backticks or three or more tildes.
pub open spec fn has_fence(line: Seq<char>) -> bool {
    fence_run(line, span_end(line, 0, Class::Space)) >= 3
}

/// Whether `t` holds an opening brace.
pub open spec fn has_brace(t: Seq<char>) -> bool {
    span_end(t, 0, Class::Except('{')) < t.len()
}

/// The header of a fence line `t` without white space at its ends.
///
/// With a brace in the line, the language is what follows the fence up to
/// white space or the brace; white space may follow, then the brace must;
/// the attributes are what stands up to the next closing brace, which
/// must come on the same line. Without a brace, the language is what
/// follows the fence up to white space; where nothing follows a fence of
/// four or more, its last character is the language.
pub open spec fn header_of(t: Seq<char>) -> Option<FenceHeaderView> {
    let n = fence_run(t, 0);
    if has_brace(t) {
        let lang_end = span_end(t, n, Class::BlackBut('{'));
        let open = span_end(t, lang_end, Class::White);
        let close = span_end(t, open + 1, Class::Neither('}', '\n'));
        if open < t.len() && t[open] == '{' && close < t.len() && t[close] == '}' {
            Some(
                FenceHeaderView {
                    lang: t.subrange(n, lang_end),
                    attributes: t.subrange(open + 1, close),
                },
            )
        } else {
            None
        }
    } else {
        let end = span_end(t, n, Class::Black);
        if end > n {
            Some(FenceHeaderView { lang: t.subrange(n, end), attributes: Seq::empty() })
        } else if n >= 4 {
            Some(FenceHeaderView { lang: t.subrange(n - 1, n), attributes: Seq::empty() })
        } else {
            None
        }
    }
}

/// The header of `line`, if it holds a fence with a header.
pub open spec fn fence_header(line: Seq<char>) -> Option<FenceHeaderView> {
    if has_fence(line) {
        header_of(trimmed(line))
    } else {
        None
    }
}

/// The chunk of a header whose attributes were read with `outcome`. A
/// block that does not read counts as an empty one: nothing is set, and
/// each flag has its default. The chunk always has an id: `fresh` where
/// the attributes give none.
pub open spec fn chunk_of(
    lang: Seq<char>,
    outcome: Result<AttributesView, AttributesError>,
    fresh: Seq<char>,
) -> CodeChunkView {
    CodeChunkView {
        lang: Some(lang),
        attributes: match outcome {
            Ok(attributes) => if attributes.id is Some {
                attributes
            } else {
                attributes.with_id(fresh)
            },
            Err(_) => AttributesView::unset().with_id(fresh),
        },
    }
}

/// The chunk of `line`, if it holds a fence with a header, where `fresh`
/// is the id for attributes that give none: the language of the header,
/// and what a parse of its block gives.
pub open spec fn chunk_for(line: Seq<char>, fresh: Seq<char>) -> Option<CodeChunkView> {
    match fence_header(line) {
        Some(header) => Some(chunk_of(header.lang, parsed_of(header.attributes, fresh), fresh)),
        None => None,
    }
}

/// What `CodeChunk::parse_fences` hands back for `line`: the chunk of the
/// line under some id for attributes that give none.
pub open spec fn chunk_given(line: Seq<char>, chunk: Option<CodeChunkView>) -> bool {
    exists|fresh: Seq<char>| chunk == #[trigger] chunk_for(line, fresh)
}

/// Whether `line` is a fence of the document: it starts with three or
/// more backticks or with three or more tildes.
pub open spec fn is_fence(line: Seq<char>) -> bool {
    fence_run(line, 0) >= 3
}

/// Tells whether `line` is a fence of the document.
pub fn line_is_fence(line: &str) -> (res: bool)
    ensures
        res == is_fence(line@),
{
    let chars = chars_of(line);
    measure_fence(&chars, 0) >= 3
}

fn measure_fence(s: &Vec<char>, from: usize) -> (res: usize)
    requires
        from <= s.len(),
    ensures
        res == fence_run(s@, from as int),
        from + res <= s.len(),
{
    let ticks = scan(s, from, Class::Only('`')) - from;
    if ticks >= 3 {
        ticks
    } else {
        scan(s, from, Class::Only('~')) - from
    }
}

impl CodeChunk {
    /// Splits a fence line into its language tag and the text of its
    /// attributes.
    pub fn split_header(line: &str) -> (res: Option<FenceHeader>)
        ensures
            opt_header(res) == fence_header(line@),
    {
        let chars = chars_of(line);
        let indent = scan(&chars, 0, Class::Space);
        if measure_fence(&chars, indent) < 3 {
            return None;
        }
        let start = scan(&chars, 0, Class::White);
        let end = scan_back(&chars, chars.len(), Class::White);
        if start >= end {
            proof {
                crate::text::lemma_span_end(Seq::<char>::empty(), 0, Class::Only('`'));
                crate::text::lemma_span_end(Seq::<char>::empty(), 0, Class::Only('~'));
                crate::text::lemma_span_end(Seq::<char>::empty(), 0, Class::Except('{'));
                crate::text::lemma_span_end(Seq::<char>::empty(), 0, Class::Black);
            }
            return None;
        }
        let t = slice(&chars, start, end);
        assert(t@ == trimmed(line@));
        let n = measure_fence(&t, 0);
        if scan(&t, 0, Class::Except('{')) < t.len() {
            let lang_end = scan(&t, n, Class::BlackBut('{'));
            let open = scan(&t, lang_end, Class::White);
            if open >= t.len() || t[open] != '{' {
                return None;
            }
            let close = scan(&t, open + 1, Class::Neither('}', '\n'));
            if close >= t.len() || t[close] != '}' {
                return None;
            }
            let lang = substring(line, start + n, start + lang_end);
            let attributes = substring(line, start + open + 1, start + close);
            assert(lang@ =~= t@.subrange(n as int, lang_end as int));
            assert(attributes@ =~= t@.subrange(open + 1, close as int));
            Some(FenceHeader { lang, attributes })
        } else {
            let stop = scan(&t, n, Class::Black);
            if stop > n {
                let lang = substring(line, start + n, start + stop);
                assert(lang@ =~= t@.subrange(n as int, stop as int));
                Some(FenceHeader { lang, attributes: String::new() })
            } else if n >= 4 {
                let lang = substring(line, start + n - 1, start + n);
                assert(lang@ =~= t@.subrange(n - 1, n as int));
                Some(FenceHeader { lang, attributes: String::new() })
            } else {
                None
            }
        }
    }

    /// The chunk of a header with the language `lang` whose attributes
    /// were read with `outcome`; `fresh` is its id where the attributes
    /// give none. A block that did not read leaves nothing set but the
    /// id, with each flag at its default.
    pub fn assemble(lang: String, outcome: Result<Attributes, AttributesError>, fresh: String) -> (res:
        CodeChunk)
        ensures
            res@ == chunk_of(lang@, attributes_result(outcome), fresh@),
    {
        match outcome {
            Ok(attributes) => {
                if attributes.id.is_some() {
                    CodeChunk { lang: Some(lang), attributes }
                } else {
                    CodeChunk { lang: Some(lang), attributes: Attributes { id: Some(fresh), ..attributes } }
                }
            },
            Err(_) => CodeChunk { lang: Some(lang), attributes: Attributes::unset(fresh) },
        }
    }

    /// Builds the chunk of a fence line; `fresh` is its id where the
    /// attributes give none.
    pub fn parse_fences_with(line: &str, fresh: &str) -> (res: Option<CodeChunk>)
        ensures
            opt_chunk(res) == chunk_for(line@, fresh@),
    {
        match CodeChunk::split_header(line) {
            Some(header) => {
                let outcome = Attributes::parse_with(header.attributes.as_str(), fresh.to_owned());
                Some(CodeChunk::assemble(header.lang, outcome, fresh.to_owned()))
            },
            None => None,
        }
    }

    /// build a CodeChunk from a string containing the fences line
    pub fn parse_fences(line: String) -> (res: Option<CodeChunk>)
        ensures
            chunk_given(line@, opt_chunk(res)),
    {
        let fresh = fresh_id();
        CodeChunk::parse_fences_with(line.as_str(), fresh.as_str())
    }
}

} // verus!
