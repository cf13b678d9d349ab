//! What the view holds and how it scrolls, apart from any terminal.

use vstd::prelude::*;
use crate::executor::execution_plan::ExecutionItem;

verus! {

/// One line of what the view shows.
#[derive(Debug, PartialEq, Eq)]
pub enum ViewLine {
    /// A line of text.
    LineOutput(String),
    /// A line of code, or of what a command wrote.
    CodeOutput(String),
    /// The mark that a command is executing.
    ExecutionLine,
    /// A fence of its own.
    ClearLine,
}

pub enum ViewLineView {
    LineOutput(Seq<char>),
    CodeOutput(Seq<char>),
    ExecutionLine,
    ClearLine,
}

impl View for ViewLine {
    type V = ViewLineView;

    open spec fn view(&self) -> ViewLineView {
        match *self {
            ViewLine::LineOutput(line) => ViewLineView::LineOutput(line@),
            ViewLine::CodeOutput(line) => ViewLineView::CodeOutput(line@),
            ViewLine::ExecutionLine => ViewLineView::ExecutionLine,
            ViewLine::ClearLine => ViewLineView::ClearLine,
        }
    }
}

impl From<ExecutionItem> for ViewLine {
    fn from(item: ExecutionItem) -> (res: ViewLine) {
        match item {
            ExecutionItem::OutputCode(code) => ViewLine::CodeOutput(code),
            ExecutionItem::OutputString(line) => ViewLine::LineOutput(line),
            ExecutionItem::Execute(e) => ViewLine::LineOutput(e.code),
        }
    }
}

impl vstd::std_specs::convert::FromSpecImpl<ExecutionItem> for ViewLine {
    open spec fn obeys_from_spec() -> bool {
        true
    }

    open spec fn from_spec(item: ExecutionItem) -> ViewLine {
        match item {
            ExecutionItem::OutputCode(code) => ViewLine::CodeOutput(code),
            ExecutionItem::OutputString(line) => ViewLine::LineOutput(line),
            ExecutionItem::Execute(e) => ViewLine::LineOutput(e.code),
        }
    }
}

/// The fence that sets code apart.
pub open spec fn fence() -> Seq<char> {
    "```"@
}

/// The markdown of one line of the view that follows `previous`: a fence
/// comes first where code begins or ends.
pub open spec fn markdown_of_line(current: ViewLineView, previous: Option<ViewLineView>) -> Seq<
    Seq<char>,
> {
    match current {
        ViewLineView::ExecutionLine => seq!["~~~~~~~~~"@, "executing..."@, "~~~~~~~~~"@],
        ViewLineView::ClearLine => seq![fence()],
        ViewLineView::CodeOutput(line) => match previous {
            None => seq![fence(), line],
            Some(ViewLineView::LineOutput(_)) => seq![fence(), line],
            _ => seq![line],
        },
        ViewLineView::LineOutput(line) => match previous {
            Some(ViewLineView::CodeOutput(_)) => seq![fence(), line],
            _ => seq![line],
        },
    }
}

/// The markdown of the first `n` lines of the view.
pub open spec fn markdown_of(lines: Seq<ViewLineView>, n: int) -> Seq<Seq<char>>
    decreases n,
{
    if n <= 0 {
        Seq::empty()
    } else {
        markdown_of(lines, n - 1) + markdown_of_line(
            lines[n - 1],
            if n >= 2 {
                Some(lines[n - 2])
            } else {
                None
            },
        )
    }
}

/// The lines of a list, each by its view.
pub open spec fn lines_view(lines: Vec<ViewLine>) -> Seq<ViewLineView> {
    Seq::new(lines@.len(), |i: int| lines@[i]@)
}

/// How many lines a page of height `height` shows.
pub open spec fn page_of(height: usize) -> int {
    if height > 3 {
        height - 3
    } else {
        0
    }
}

/// The scroll that shows the end of `content` lines on a page of `page`
/// lines.
pub open spec fn bottom(content: int, page: int) -> int {
    if content > page {
        content - page - 1
    } else {
        0
    }
}

/// So many pages of `height` lines each, in lines, kept within `i32`.
pub open spec fn lines_of(pages: int, height: int) -> int {
    if pages * height > i32::MAX {
        i32::MAX as int
    } else if pages * height < i32::MIN {
        i32::MIN as int
    } else {
        pages * height
    }
}

/// How many lines to scroll for so many pages on an area of `height`
/// lines; negative is up.
pub fn lines_of_pages(pages_count: i32, height: u16) -> (res: i32)
    ensures
        res == lines_of(pages_count as int, height as int),
{
    let pages: i64 = pages_count as i64;
    let each: i64 = height as i64;
    assert(-0x8000_0000 * 0x1_0000 <= pages * each <= 0x8000_0000 * 0x1_0000) by (nonlinear_arith)
        requires
            -0x8000_0000 <= pages <= 0x8000_0000,
            0 <= each <= 0x1_0000,
    ;
    let lines: i64 = pages * each;
    if lines > i32::MAX as i64 {
        i32::MAX
    } else if lines < i32::MIN as i64 {
        i32::MIN
    } else {
        lines as i32
    }
}

/// What the view holds: its size, its lines and how far it is scrolled.
#[derive(Debug, PartialEq, Eq)]
pub struct ViewModel {
    pub width: usize,
    pub height: usize,
    /// whether the help page is displayed over the rest
    pub show_help_page: bool,
    pub executing: bool,
    pub lines: Vec<ViewLine>,
    /// number of lines hidden on top due to scroll
    pub scroll: usize,
}

impl ViewModel {
    /// An empty view of the given size.
    pub fn new(width: usize, height: usize) -> (res: ViewModel)
        ensures
            res.width == width,
            res.height == height,
            !res.show_help_page,
            !res.executing,
            res.lines@.len() == 0,
            res.scroll == 0,
    {
        ViewModel {
            width,
            height,
            show_help_page: false,
            executing: false,
            lines: Vec::new(),
            scroll: 0,
        }
    }

    /// close the help and return true if it was open,
    /// return false otherwise
    pub fn close_help(&mut self) -> (res: bool)
        ensures
            res == old(self).show_help_page,
            *final(self) == (ViewModel { show_help_page: false, ..*old(self) }),
    {
        let was_open = self.show_help_page;
        self.show_help_page = false;
        was_open
    }

    pub fn is_help(&self) -> (res: bool)
        ensures
            res == self.show_help_page,
    {
        self.show_help_page
    }

    pub fn toggle_help(&mut self)
        ensures
            *final(self) == (ViewModel {
                show_help_page: !old(self).show_help_page,
                ..*old(self)
            }),
    {
        self.show_help_page = !self.show_help_page;
    }

    pub fn execution_starts(&mut self)
        ensures
            *final(self) == (ViewModel { executing: true, ..*old(self) }),
    {
        self.executing = true;
    }

    pub fn execution_stops(&mut self)
        ensures
            *final(self) == (ViewModel { executing: false, ..*old(self) }),
    {
        self.executing = false;
    }

    /// Adds the mark that a command is executing.
    pub fn draw_executing(&mut self)
        ensures
            lines_view(final(self).lines) == lines_view(old(self).lines).push(
                ViewLineView::ExecutionLine,
            ),
            final(self).scroll == old(self).scroll,
            final(self).width == old(self).width,
            final(self).height == old(self).height,
            final(self).show_help_page == old(self).show_help_page,
            final(self).executing == old(self).executing,
    {
        self.lines.push(ViewLine::ExecutionLine);
        assert(lines_view(self.lines) =~= lines_view(old(self).lines).push(
            ViewLineView::ExecutionLine,
        ));
    }

    /// Adds a line and scrolls to the bottom.
    pub fn append(&mut self, line: ViewLine)
        ensures
            lines_view(final(self).lines) == lines_view(old(self).lines).push(line@),
            final(self).scroll == bottom((old(self).lines@.len() + 1) as int, page_of(old(self).height)),
            final(self).width == old(self).width,
            final(self).height == old(self).height,
            final(self).show_help_page == old(self).show_help_page,
            final(self).executing == old(self).executing,
    {
        self.lines.push(line);
        assert(lines_view(self.lines) =~= lines_view(old(self).lines).push(line@));
        self.scroll_to_bottom();
    }

    /// Adds a line that a command wrote and scrolls to the bottom.
    pub fn write_command_output(&mut self, output: String)
        ensures
            lines_view(final(self).lines) == lines_view(old(self).lines).push(
                ViewLineView::CodeOutput(output@),
            ),
            final(self).scroll == bottom((old(self).lines@.len() + 1) as int, page_of(old(self).height)),
            final(self).width == old(self).width,
            final(self).height == old(self).height,
            final(self).show_help_page == old(self).show_help_page,
            final(self).executing == old(self).executing,
    {
        self.append(ViewLine::CodeOutput(output));
    }

    /// Adds an item of the plan and scrolls to the bottom: a line as it
    /// is, a fragment as its code.
    pub fn write_on(&mut self, output: ExecutionItem)
        ensures
            lines_view(final(self).lines) == lines_view(old(self).lines).push(
                match output {
                    ExecutionItem::OutputCode(code) => ViewLineView::CodeOutput(code@),
                    ExecutionItem::OutputString(line) => ViewLineView::LineOutput(line@),
                    ExecutionItem::Execute(e) => ViewLineView::LineOutput(e.code@),
                },
            ),
            final(self).scroll == bottom((old(self).lines@.len() + 1) as int, page_of(old(self).height)),
            final(self).width == old(self).width,
            final(self).height == old(self).height,
            final(self).show_help_page == old(self).show_help_page,
            final(self).executing == old(self).executing,
    {
        let line: ViewLine = match output {
            ExecutionItem::OutputCode(code) => ViewLine::CodeOutput(code),
            ExecutionItem::OutputString(line) => ViewLine::LineOutput(line),
            ExecutionItem::Execute(e) => ViewLine::LineOutput(e.code),
        };
        self.append(line);
    }

    /// The markdown of the lines of the view.
    pub fn build_md(&self) -> (res: Vec<String>)
        ensures
            res.deep_view() == markdown_of(lines_view(self.lines), self.lines@.len() as int),
    {
        let ghost model = lines_view(self.lines);
        let mut out: Vec<String> = Vec::new();
        let mut i: usize = 0;
        assert(out.deep_view() =~= markdown_of(model, 0));
        while i < self.lines.len()
            invariant
                i <= self.lines.len(),
                model == lines_view(self.lines),
                out.deep_view() == markdown_of(model, i as int),
            decreases self.lines.len() - i,
        {
            let ghost before = out.deep_view();
            let ghost previous = if i >= 1 {
                Some(model[i - 1])
            } else {
                None
            };
            let fenced: bool = match &self.lines[i] {
                ViewLine::CodeOutput(_) => i == 0 || match &self.lines[i - 1] {
                    ViewLine::LineOutput(_) => true,
                    _ => false,
                },
                ViewLine::LineOutput(_) => i > 0 && match &self.lines[i - 1] {
                    ViewLine::CodeOutput(_) => true,
                    _ => false,
                },
                _ => false,
            };
            match &self.lines[i] {
                ViewLine::ExecutionLine => {
                    out.push("~~~~~~~~~".to_owned());
                    out.push("executing...".to_owned());
                    out.push("~~~~~~~~~".to_owned());
                },
                ViewLine::ClearLine => {
                    out.push("```".to_owned());
                },
                ViewLine::CodeOutput(line) => {
                    if fenced {
                        out.push("```".to_owned());
                    }
                    out.push(line.clone());
                },
                ViewLine::LineOutput(line) => {
                    if fenced {
                        out.push("```".to_owned());
                    }
                    out.push(line.clone());
                },
            }
            assert(out.deep_view() =~= before + markdown_of_line(model[i as int], previous));
            i += 1;
        }
        out
    }

    /// Scrolls so that the last line shows.
    pub fn scroll_to_bottom(&mut self)
        ensures
            final(self).scroll == bottom(old(self).lines@.len() as int, page_of(old(self).height)),
            *final(self) == (ViewModel { scroll: final(self).scroll, ..*old(self) }),
    {
        let ch = self.content_height();
        let ph = self.page_height();
        self.scroll = if ch > ph {
            ch - ph - 1
        } else {
            0
        };
    }

    /// Brings the scroll back into what the content allows.
    pub fn fix_scroll(&mut self)
        ensures
            final(self).scroll == if old(self).scroll <= bottom(
                old(self).lines@.len() as int,
                page_of(old(self).height),
            ) {
                old(self).scroll as int
            } else {
                bottom(old(self).lines@.len() as int, page_of(old(self).height))
            },
            *final(self) == (ViewModel { scroll: final(self).scroll, ..*old(self) }),
    {
        let content_height = self.content_height();
        let page_height = self.page_height();
        let limit: usize = if content_height > page_height {
            content_height - page_height - 1
        } else {
            0
        };
        if self.scroll > limit {
            self.scroll = limit;
        }
    }

    /// How many lines the view holds.
    pub fn content_height(&self) -> (res: usize)
        ensures
            res == self.lines@.len(),
    {
        self.lines.len()
    }

    /// How many lines a page shows.
    pub fn page_height(&self) -> (res: usize)
        ensures
            res == page_of(self.height),
    {
        if self.height > 3 {
            self.height - 3
        } else {
            0
        }
    }

    /// Takes a new size and scrolls to the last line.
    pub fn resize(&mut self, width: usize, height: usize)
        ensures
            final(self).scroll == bottom(old(self).lines@.len() as int, page_of(height)),
            *final(self) == (ViewModel { width, height, scroll: final(self).scroll, ..*old(self) }),
    {
        self.width = width;
        self.height = height;
        self.scroll = self.lines.len();
        self.fix_scroll();
    }
}

} // verus!
