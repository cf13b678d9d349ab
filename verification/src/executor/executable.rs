//! A runnable fragment of the document and where it stands.

use vstd::prelude::*;
use crate::fenced_attributes::code_chunk::{clone_opt_chunk, opt_chunk, CodeChunk, CodeChunkView};

verus! {

/// Executable position: the line of the opening fence and the line of the
/// closing fence.
#[derive(Debug, PartialEq, Eq, Structural, Hash)]
pub struct ExecutablePosition {
    pub start: usize,
    pub end: usize,
}

impl Default for ExecutablePosition {
    fn default() -> (res: ExecutablePosition)
        ensures
            res == (ExecutablePosition { start: 0, end: 0 }),
    {
        ExecutablePosition { start: 0, end: 0 }
    }
}

impl Clone for ExecutablePosition {
    fn clone(&self) -> (res: ExecutablePosition)
        ensures
            res == *self,
    {
        ExecutablePosition { start: self.start, end: self.end }
    }
}

impl ExecutablePosition {
    /// A position is closed once its end lies behind its start.
    pub open spec fn is_closed(&self) -> bool {
        self.start < self.end
    }

    /// Start setter
    pub fn start(start: usize) -> (res: ExecutablePosition)
        ensures
            res == (ExecutablePosition { start, end: 0 }),
    {
        ExecutablePosition { start, end: 0 }
    }

    /// Create new position
    pub fn new(start: usize, end: usize) -> (res: ExecutablePosition)
        ensures
            res == (ExecutablePosition { start, end }),
    {
        ExecutablePosition { start, end }
    }

    /// End setter
    pub fn end(self, end: usize) -> (res: ExecutablePosition)
        ensures
            res == (ExecutablePosition { start: self.start, end }),
    {
        ExecutablePosition { start: self.start, end }
    }
}

/// Executable metadata with the information on the code chunk
#[derive(Debug, PartialEq, Eq)]
pub struct Executable {
    /// Position of the executable
    pub position: ExecutablePosition,
    /// Extracted code chunk; none for a fence without a usable header
    pub code_chunk: Option<CodeChunk>,
    /// The actual code to be executed
    pub code: String,
}

pub struct ExecutableView {
    pub position: ExecutablePosition,
    pub code_chunk: Option<CodeChunkView>,
    pub code: Seq<char>,
}

impl View for Executable {
    type V = ExecutableView;

    open spec fn view(&self) -> ExecutableView {
        ExecutableView {
            position: self.position,
            code_chunk: opt_chunk(self.code_chunk),
            code: self.code@,
        }
    }
}

impl Default for Executable {
    fn default() -> (res: Executable)
        ensures
            res@ == (ExecutableView {
                position: ExecutablePosition { start: 0, end: 0 },
                code_chunk: None,
                code: Seq::empty(),
            }),
    {
        Executable { position: ExecutablePosition::default(), code_chunk: None, code: String::new() }
    }
}

impl Clone for Executable {
    fn clone(&self) -> (res: Executable)
        ensures
            res@ == self@,
    {
        Executable {
            position: self.position.clone(),
            code_chunk: clone_opt_chunk(&self.code_chunk),
            code: self.code.clone(),
        }
    }
}

impl Executable {
    pub fn new(position: ExecutablePosition, code_chunk: Option<CodeChunk>, code: String) -> (res:
        Executable)
        ensures
            res.position == position,
            res.code_chunk == code_chunk,
            res.code == code,
    {
        Executable { position, code_chunk, code }
    }
}

} // verus!
