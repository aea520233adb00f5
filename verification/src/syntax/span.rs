//! Values with their place in the source.

use vstd::prelude::*;

verus! {

/// A range of positions in the source text.
#[derive(Debug, Clone, Copy, PartialEq, Eq)]
pub struct Span {
    /// Where the range starts.
    pub start: u32,
    /// Where the range ends.
    pub end: u32,
}

/// A value with the range of source text that it was read from. Printing
/// reads the value only.
#[derive(Debug, Clone, Copy, PartialEq, Eq)]
pub struct Spanned<T> {
    /// The value.
    pub v: T,
    /// The range it was read from.
    pub span: Span,
}

/// A vector of values with their ranges.
pub type SpanVec<T> = Vec<Spanned<T>>;

impl Span {
    /// The range from `start` to `end`.
    pub fn new(start: u32, end: u32) -> (span: Span)
        ensures
            span == (Span { start, end }),
    {
        Span { start, end }
    }

    /// The empty range at the start of the source.
    pub fn zero() -> (span: Span)
        ensures
            span == (Span { start: 0, end: 0 }),
    {
        Span { start: 0, end: 0 }
    }
}

impl<T> Spanned<T> {
    /// Pairs a value with a range.
    pub fn new(v: T, span: Span) -> (spanned: Spanned<T>)
        ensures
            spanned == (Spanned { v, span }),
    {
        Spanned { v, span }
    }

    /// Pairs a value with the empty range at the start of the source.
    pub fn zero(v: T) -> (spanned: Spanned<T>)
        ensures
            spanned == (Spanned { v, span: Span { start: 0, end: 0 } }),
    {
        Spanned { v, span: Span::zero() }
    }
}

} // verus!
