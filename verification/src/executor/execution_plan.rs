//! The ordered plan of what to show and what to run.

use vstd::prelude::*;
use crate::executor::executable::{Executable, ExecutablePosition, ExecutableView};
use crate::fenced_attributes::attributes::Attributes;
use crate::fenced_attributes::code_chunk::{
    chunk_given, clone_opt_chunk, is_fence, line_is_fence, opt_chunk, CodeChunk, CodeChunkView,
};
use crate::text::{lines_of, opt_text, split_lines, str_equal};

verus! {

/// The lines that `minimad::clean::lines` makes of a text: its lines
/// without a first line that is empty, a last one that is blank, and the
/// white space that every line shares with the first at its start.
pub uninterp spec fn cleaned_lines(text: Seq<char>) -> Seq<Seq<char>>;

/// `minimad::clean::lines`: the lines of a text, cleaned of the
/// superfluous lines and indentation of a literal. It is a function of
/// the text alone; the contract gives its result a name.
#[verifier::external_body]
fn clean_lines<'a>(text: &'a str) -> (res: Vec<&'a str>)
    ensures
        res.deep_view() == cleaned_lines(text@),
{
    minimad::clean::lines(text)
}

/// One step of the plan.
#[derive(Debug, PartialEq, Eq)]
pub enum ExecutionItem {
    /// A line of text outside any fence.
    OutputString(String),
    /// A line of code between two fences.
    OutputCode(String),
    /// A fragment to run.
    Execute(Executable),
}

pub enum ExecutionItemView {
    OutputString(Seq<char>),
    OutputCode(Seq<char>),
    Execute(ExecutableView),
}

impl View for ExecutionItem {
    type V = ExecutionItemView;

    open spec fn view(&self) -> ExecutionItemView {
        match *self {
            ExecutionItem::OutputString(line) => ExecutionItemView::OutputString(line@),
            ExecutionItem::OutputCode(line) => ExecutionItemView::OutputCode(line@),
            ExecutionItem::Execute(executable) => ExecutionItemView::Execute(executable@),
        }
    }
}

impl Clone for ExecutionItem {
    fn clone(&self) -> (res: ExecutionItem)
        ensures
            res@ == self@,
    {
        match self {
            ExecutionItem::OutputString(line) => ExecutionItem::OutputString(line.clone()),
            ExecutionItem::OutputCode(line) => ExecutionItem::OutputCode(line.clone()),
            ExecutionItem::Execute(executable) => ExecutionItem::Execute(executable.clone()),
        }
    }
}

/// a plan that is just a collection of items to be executed
#[derive(Debug, PartialEq, Eq)]
pub struct ExecutionPlan {
    /// The items that are left, the last of the document first.
    pub plan: Vec<ExecutionItem>,
}

impl View for ExecutionPlan {
    type V = Seq<ExecutionItemView>;

    /// The items that are left, in the order of the document.
    open spec fn view(&self) -> Seq<ExecutionItemView> {
        Seq::new(self.plan@.len(), |i: int| self.plan@[self.plan@.len() - 1 - i]@)
    }
}

impl Default for ExecutionPlan {
    fn default() -> (res: ExecutionPlan)
        ensures
            res@ == Seq::<ExecutionItemView>::empty(),
    {
        let res = ExecutionPlan { plan: Vec::new() };
        assert(res@ =~= Seq::<ExecutionItemView>::empty());
        res
    }
}

impl Clone for ExecutionPlan {
    fn clone(&self) -> (res: ExecutionPlan)
        ensures
            res@ == self@,
    {
        let mut plan: Vec<ExecutionItem> = Vec::new();
        let mut i: usize = 0;
        while i < self.plan.len()
            invariant
                i <= self.plan.len(),
                plan.len() == i,
                forall|k: int| 0 <= k < i ==> plan@[k]@ == self.plan@[k]@,
            decreases self.plan.len() - i,
        {
            plan.push(self.plan[i].clone());
            i += 1;
        }
        let res = ExecutionPlan { plan };
        assert(res@ =~= self@);
        res
    }
}

/// What the plan is built for: the facts of the platform.
#[derive(Debug, PartialEq, Eq)]
pub struct Environment {
    /// The operating system, e.g. `linux`, `macos`, `windows`.
    pub os: String,
    /// The architecture, e.g. `x86_64`, `arm`.
    pub arch: String,
    /// The family of the Linux distribution, where it is known.
    pub linux_distro: Option<String>,
    /// What ends a line of code on this platform.
    pub line_ending: String,
}

pub struct EnvironmentView {
    pub os: Seq<char>,
    pub arch: Seq<char>,
    pub linux_distro: Option<Seq<char>>,
    pub line_ending: Seq<char>,
}

impl View for Environment {
    type V = EnvironmentView;

    open spec fn view(&self) -> EnvironmentView {
        EnvironmentView {
            os: self.os@,
            arch: self.arch@,
            linux_distro: opt_text(self.linux_distro),
            line_ending: self.line_ending@,
        }
    }
}

/// Whether line `n` stands between an opening fence and its closing
/// fence, or would if it were no fence: an odd number of fences precedes
/// it.
pub open spec fn inside(lines: Seq<Seq<char>>, n: int) -> bool
    decreases n,
{
    if n <= 0 {
        false
    } else {
        inside(lines, n - 1) != is_fence(lines[n - 1])
    }
}

/// The last fence before line `n`.
pub open spec fn opener(lines: Seq<Seq<char>>, n: int) -> int
    decreases n,
{
    if n <= 0 {
        0
    } else if is_fence(lines[n - 1]) {
        n - 1
    } else {
        opener(lines, n - 1)
    }
}

/// The lines from `from` up to `to`, each followed by `ending`.
pub open spec fn code_of(lines: Seq<Seq<char>>, from: int, to: int, ending: Seq<char>) -> Seq<char>
    decreases to - from,
{
    if from >= to {
        Seq::empty()
    } else {
        code_of(lines, from, to - 1, ending) + lines[to - 1] + ending
    }
}

/// The fragment that the fence at line `end` closes.
pub open spec fn fragment(
    lines: Seq<Seq<char>>,
    chunks: Seq<Option<CodeChunkView>>,
    ending: Seq<char>,
    end: int,
) -> ExecutableView {
    let start = opener(lines, end);
    ExecutableView {
        position: ExecutablePosition { start: start as usize, end: end as usize },
        code_chunk: chunks[start],
        code: code_of(lines, start + 1, end, ending),
    }
}

/// The items that the first `n` lines give, before any is filtered out.
/// A fence that opens gives nothing; a fence that closes gives the
/// fragment it closes; any other line gives itself, as code between
/// fences and as text elsewhere. `chunks[i]` is the code chunk of line
/// `i` where it opens a fence.
pub open spec fn raw_items(
    lines: Seq<Seq<char>>,
    chunks: Seq<Option<CodeChunkView>>,
    ending: Seq<char>,
    n: int,
) -> Seq<ExecutionItemView>
    decreases n,
{
    if n <= 0 {
        Seq::empty()
    } else {
        let before = raw_items(lines, chunks, ending, n - 1);
        if is_fence(lines[n - 1]) {
            if inside(lines, n - 1) {
                before.push(ExecutionItemView::Execute(fragment(lines, chunks, ending, n - 1)))
            } else {
                before
            }
        } else if inside(lines, n - 1) {
            before.push(ExecutionItemView::OutputCode(lines[n - 1]))
        } else {
            before.push(ExecutionItemView::OutputString(lines[n - 1]))
        }
    }
}

/// A filter lets a value pass if it is absent or lists the value.
pub open spec fn allowed(filter: Option<Seq<Seq<char>>>, value: Seq<char>) -> bool {
    filter matches Some(list) ==> list.contains(value)
}

/// A filter lets a value that may be unknown pass if it is absent, or
/// the value is known and listed.
pub open spec fn allowed_if_known(filter: Option<Seq<Seq<char>>>, value: Option<Seq<char>>)
    -> bool {
    filter matches Some(list) ==> value matches Some(v) && list.contains(v)
}

/// Whether an item stays in a plan for `environment`: every line does; a
/// fragment does unless its attributes exclude the operating system, the
/// architecture or the distribution.
pub open spec fn keeps(environment: EnvironmentView, item: ExecutionItemView) -> bool {
    match item {
        ExecutionItemView::Execute(executable) => match executable.code_chunk {
            Some(chunk) => allowed(chunk.attributes.sys, environment.os) && allowed(
                chunk.attributes.arch,
                environment.arch,
            ) && allowed_if_known(chunk.attributes.linux_distro, environment.linux_distro),
            None => true,
        },
        _ => true,
    }
}

/// The items of `items` that stay in a plan for `environment`, in their
/// order.
pub open spec fn kept(items: Seq<ExecutionItemView>, environment: EnvironmentView) -> Seq<
    ExecutionItemView,
>
    decreases items.len(),
{
    if items.len() == 0 {
        Seq::empty()
    } else if keeps(environment, items.last()) {
        kept(items.drop_last(), environment).push(items.last())
    } else {
        kept(items.drop_last(), environment)
    }
}

/// The plan of a document: what its lines give, without the fragments
/// that `environment` excludes.
pub open spec fn plan_of(
    lines: Seq<Seq<char>>,
    chunks: Seq<Option<CodeChunkView>>,
    environment: EnvironmentView,
) -> Seq<ExecutionItemView> {
    kept(raw_items(lines, chunks, environment.line_ending, lines.len() as int), environment)
}

/// Each line that opens a fence has the code chunk that a parse of its
/// header gives, under some id for attributes that give none.
pub open spec fn headers_parsed(lines: Seq<Seq<char>>, chunks: Seq<Option<CodeChunkView>>)
    -> bool {
    &&& chunks.len() == lines.len()
    &&& forall|i: int|
        0 <= i < lines.len() && is_fence(lines[i]) && !inside(lines, i) ==> chunk_given(
            lines[i],
            #[trigger] chunks[i],
        )
}

/// The items of a list, each by its view.
pub open spec fn items_view(items: Vec<ExecutionItem>) -> Seq<ExecutionItemView> {
    Seq::new(items@.len(), |i: int| items@[i]@)
}

/// The code chunks of a list, each by its view.
pub open spec fn chunks_view(chunks: Vec<Option<CodeChunk>>) -> Seq<Option<CodeChunkView>> {
    Seq::new(chunks@.len(), |i: int| opt_chunk(chunks@[i]))
}

fn lists(list: &Vec<String>, value: &str) -> (res: bool)
    ensures
        res == list.deep_view().contains(value@),
{
    let mut i: usize = 0;
    while i < list.len()
        invariant
            i <= list.len(),
            forall|k: int| 0 <= k < i ==> list.deep_view()[k] != value@,
        decreases list.len() - i,
    {
        if str_equal(list[i].as_str(), value) {
            assert(list.deep_view()[i as int] == value@);
            return true;
        }
        i += 1;
    }
    false
}

impl ExecutionPlan {
    /// Whether the system filter of `attrs` lets the operating system of
    /// `environment` pass.
    pub fn by_sys(attrs: &Attributes, environment: &Environment) -> (res: bool)
        ensures
            res == allowed(attrs@.sys, environment@.os),
    {
        match &attrs.sys {
            Some(list) => lists(list, environment.os.as_str()),
            None => true,
        }
    }

    /// Whether the architecture filter of `attrs` lets the architecture
    /// of `environment` pass.
    pub fn by_arch(attrs: &Attributes, environment: &Environment) -> (res: bool)
        ensures
            res == allowed(attrs@.arch, environment@.arch),
    {
        match &attrs.arch {
            Some(list) => lists(list, environment.arch.as_str()),
            None => true,
        }
    }

    /// Whether the distribution filter of `attrs` lets the distribution
    /// of `environment` pass.
    pub fn by_linux_distro(attrs: &Attributes, environment: &Environment) -> (res: bool)
        ensures
            res == allowed_if_known(attrs@.linux_distro, environment@.linux_distro),
    {
        match &attrs.linux_distro {
            Some(list) => match &environment.linux_distro {
                Some(distro) => lists(list, distro.as_str()),
                None => false,
            },
            None => true,
        }
    }

    /// Whether `item` stays in a plan for `environment`.
    pub fn admits(environment: &Environment, item: &ExecutionItem) -> (res: bool)
        ensures
            res == keeps(environment@, item@),
    {
        match item {
            ExecutionItem::Execute(e) => match &e.code_chunk {
                Some(chunk) => ExecutionPlan::by_sys(&chunk.attributes, environment)
                    && ExecutionPlan::by_arch(&chunk.attributes, environment)
                    && ExecutionPlan::by_linux_distro(&chunk.attributes, environment),
                None => true,
            },
            _ => true,
        }
    }

    /// The plan of the items `raw`, given in the order of the document:
    /// those that stay for `environment`.
    fn seal(raw: Vec<ExecutionItem>, environment: &Environment) -> (res: ExecutionPlan)
        ensures
            res@ == kept(items_view(raw), environment@),
    {
        let ghost all = items_view(raw);
        let mut raw = raw;
        let mut plan: Vec<ExecutionItem> = Vec::new();
        while raw.len() > 0
            invariant
                kept(all, environment@) == kept(items_view(raw), environment@) + (ExecutionPlan {
                    plan,
                })@,
            decreases raw.len(),
        {
            let ghost before = items_view(raw);
            let ghost stored = (ExecutionPlan { plan })@;
            let item = raw.pop().unwrap();
            assert(before.drop_last() =~= items_view(raw));
            assert(before.last() == item@);
            if ExecutionPlan::admits(environment, &item) {
                plan.push(item);
                assert((ExecutionPlan { plan })@ =~= seq![item@] + stored);
                assert(kept(before, environment@) + stored =~= kept(
                    items_view(raw),
                    environment@,
                ) + (seq![item@] + stored));
            }
        }
        assert(items_view(raw) =~= Seq::<ExecutionItemView>::empty());
        let res = ExecutionPlan { plan };
        assert(Seq::<ExecutionItemView>::empty() + res@ =~= res@);
        res
    }

    /// The plan without the fragments that `environment` excludes.
    pub fn filtered(self, environment: &Environment) -> (res: ExecutionPlan)
        ensures
            res@ == kept(self@, environment@),
    {
        let mut stored = self.plan;
        let mut raw: Vec<ExecutionItem> = Vec::new();
        while stored.len() > 0
            invariant
                self@ == items_view(raw) + (ExecutionPlan { plan: stored })@,
            decreases stored.len(),
        {
            let ghost before = (ExecutionPlan { plan: stored })@;
            let ghost done = items_view(raw);
            let item = stored.pop().unwrap();
            raw.push(item);
            assert(items_view(raw) =~= done + seq![item@]);
            assert(before =~= seq![item@] + (ExecutionPlan { plan: stored })@);
            assert(done + before =~= (done + seq![item@]) + (ExecutionPlan { plan: stored })@);
        }
        assert(items_view(raw) + (ExecutionPlan { plan: stored })@ =~= items_view(raw));
        ExecutionPlan::seal(raw, environment)
    }

    /// The code chunk of each line that opens a fence, as a parse of its
    /// header gives it; none for any other line.
    pub fn parse_headers(md_lines: &Vec<&str>) -> (res: Vec<Option<CodeChunk>>)
        ensures
            headers_parsed(md_lines.deep_view(), chunks_view(res)),
    {
        let ghost lines = md_lines.deep_view();
        let mut chunks: Vec<Option<CodeChunk>> = Vec::new();
        let mut between = false;
        let mut i: usize = 0;
        while i < md_lines.len()
            invariant
                i <= md_lines.len(),
                lines == md_lines.deep_view(),
                chunks.len() == i,
                between == inside(lines, i as int),
                forall|k: int|
                    0 <= k < i && is_fence(lines[k]) && !inside(lines, k) ==> chunk_given(
                        lines[k],
                        #[trigger] chunks_view(chunks)[k],
                    ),
            decreases md_lines.len() - i,
        {
            let line: &str = md_lines[i];
            assert(line@ == lines[i as int]);
            let fence = line_is_fence(line);
            let ghost before = chunks_view(chunks);
            if fence && !between {
                let chunk = CodeChunk::parse_fences(line.to_owned());
                assert(chunk_given(lines[i as int], opt_chunk(chunk)));
                chunks.push(chunk);
                assert(chunks_view(chunks)[i as int] == opt_chunk(chunk));
            } else {
                chunks.push(None);
            }
            assert forall|k: int|
                0 <= k < i + 1 && is_fence(lines[k]) && !inside(lines, k) implies chunk_given(
                lines[k],
                #[trigger] chunks_view(chunks)[k],
            ) by {
                if k < i {
                    assert(chunks_view(chunks)[k] == before[k]);
                }
            }
            if fence {
                between = !between;
            }
            i += 1;
        }
        chunks
    }

    /// The plan that the lines of a document give with the code chunks
    /// `chunks`, where `chunks[i]` is the code chunk of line `i` if it
    /// opens a fence, for `environment`.
    pub fn build(
        md_lines: &Vec<&str>,
        chunks: &Vec<Option<CodeChunk>>,
        environment: &Environment,
    ) -> (res: ExecutionPlan)
        requires
            chunks.len() == md_lines.len(),
        ensures
            res@ == plan_of(md_lines.deep_view(), chunks_view(*chunks), environment@),
    {
        let ghost lines = md_lines.deep_view();
        let ghost cv = chunks_view(*chunks);
        let ghost ending = environment@.line_ending;
        let mut raw: Vec<ExecutionItem> = Vec::new();
        let mut between = false;
        let mut start: usize = 0;
        let mut code = String::new();
        let mut i: usize = 0;
        while i < md_lines.len()
            invariant
                i <= md_lines.len(),
                chunks.len() == md_lines.len(),
                lines == md_lines.deep_view(),
                cv == chunks_view(*chunks),
                ending == environment@.line_ending,
                items_view(raw) == raw_items(lines, cv, ending, i as int),
                between == inside(lines, i as int),
                between ==> start == opener(lines, i as int) && start < i && code@ == code_of(
                    lines,
                    start + 1,
                    i as int,
                    ending,
                ),
            decreases md_lines.len() - i,
        {
            let line: &str = md_lines[i];
            assert(line@ == lines[i as int]);
            let ghost before = items_view(raw);
            if line_is_fence(line) {
                if between {
                    let position = ExecutablePosition::start(start).end(i);
                    let executable = Executable::new(
                        position,
                        clone_opt_chunk(&chunks[start]),
                        code.clone(),
                    );
                    assert(executable@ == fragment(lines, cv, ending, i as int));
                    raw.push(ExecutionItem::Execute(executable));
                    assert(items_view(raw) =~= before.push(
                        ExecutionItemView::Execute(fragment(lines, cv, ending, i as int)),
                    ));
                    between = false;
                } else {
                    between = true;
                    code = String::new();
                    start = i;
                }
            } else {
                if between {
                    raw.push(ExecutionItem::OutputCode(line.to_owned()));
                    assert(items_view(raw) =~= before.push(ExecutionItemView::OutputCode(line@)));
                    code = code.concat(line).concat(environment.line_ending.as_str());
                } else {
                    raw.push(ExecutionItem::OutputString(line.to_owned()));
                    assert(items_view(raw) =~= before.push(ExecutionItemView::OutputString(line@)));
                }
            }
            i += 1;
        }
        ExecutionPlan::seal(raw, environment)
    }

    /// Builds the plan of a document from its text as it stands in a
    /// file or a literal: the text is cleaned into lines, and these are
    /// parsed.
    pub fn from_text(text: &str, environment: &Environment) -> (res: ExecutionPlan)
        ensures
            exists|chunks: Seq<Option<CodeChunkView>>|
                headers_parsed(cleaned_lines(text@), chunks) && res@ == #[trigger] plan_of(
                    cleaned_lines(text@),
                    chunks,
                    environment@,
                ),
    {
        ExecutionPlan::from_md_lines(clean_lines(text), environment)
    }

    /// Builds the plan of a multi-line string: each of its lines is a
    /// line of the document.
    pub fn from_md(md: &str, environment: &Environment) -> (res: ExecutionPlan)
        ensures
            exists|chunks: Seq<Option<CodeChunkView>>|
                headers_parsed(lines_of(md@), chunks) && res@ == #[trigger] plan_of(
                    lines_of(md@),
                    chunks,
                    environment@,
                ),
    {
        let owned = split_lines(md);
        let mut md_lines: Vec<&str> = Vec::new();
        let mut i: usize = 0;
        while i < owned.len()
            invariant
                i <= owned.len(),
                md_lines.len() == i,
                forall|k: int| 0 <= k < i ==> md_lines@[k]@ == owned@[k]@,
            decreases owned.len() - i,
        {
            md_lines.push(owned[i].as_str());
            i += 1;
        }
        assert(md_lines.deep_view() =~= owned.deep_view());
        ExecutionPlan::from_md_lines(md_lines, environment)
    }

    /// Parses the lines of a document and builds the plan for
    /// `environment`: each line outside the fences as text, each line
    /// between fences as code, each closed fence as a fragment to run,
    /// without the fragments that `environment` excludes.
    pub fn from_md_lines(md_lines: Vec<&str>, environment: &Environment) -> (res: ExecutionPlan)
        ensures
            exists|chunks: Seq<Option<CodeChunkView>>|
                headers_parsed(md_lines.deep_view(), chunks) && res@ == #[trigger] plan_of(
                    md_lines.deep_view(),
                    chunks,
                    environment@,
                ),
    {
        let chunks = ExecutionPlan::parse_headers(&md_lines);
        ExecutionPlan::build(&md_lines, &chunks, environment)
    }

    /// Takes the earliest item that is left; none once the plan is
    /// exhausted.
    pub fn next(&mut self) -> (res: Option<ExecutionItem>)
        ensures
            old(self)@.len() == 0 ==> res is None && final(self)@ == old(self)@,
            old(self)@.len() > 0 ==> res is Some && res->Some_0@ == old(self)@[0] && final(self)@
                == old(self)@.drop_first(),
    {
        let res = self.plan.pop();
        assert(old(self)@.len() > 0 ==> self@ =~= old(self)@.drop_first());
        assert(old(self)@.len() == 0 ==> self@ =~= old(self)@);
        res
    }
}

} // verus!
