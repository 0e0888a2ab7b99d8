//! Source locations that anchor diagnostics.

use vstd::prelude::*;

verus! {

/// A half-open range of byte offsets into the program's source text.
#[derive(Clone, Copy, Debug, PartialEq, Eq, Structural)]
pub struct Span {
    pub start: usize,
    pub end: usize,
}

impl Span {
    pub fn new(start: usize, end: usize) -> (span: Span)
        ensures
            span == (Span { start, end }),
    {
        Span { start, end }
    }

    pub fn start(&self) -> (start: usize)
        ensures
            start == self.start,
    {
        self.start
    }

    pub fn end(&self) -> (end: usize)
        ensures
            end == self.end,
    {
        self.end
    }
}

} // verus!
