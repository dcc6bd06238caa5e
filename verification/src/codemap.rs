//! Source positions.
//!
//! A [`Span`] carries the resolved geometry of a piece of source text: the
//! line and column where it starts and the line and column where it ends,
//! all zero-based. The layout engine bases every decision on this geometry,
//! so the resolved form is stored directly on each token.

use vstd::prelude::*;

verus! {

/// A region of source text, already resolved to line/column coordinates.
#[derive(Clone, Copy, PartialEq, Eq, Structural, Debug)]
pub struct Span {
    /// Line on which the region starts (zero-based).
    pub start_line: usize,
    /// Column of the first character of the region.
    pub start_col: usize,
    /// Line on which the region ends.
    pub end_line: usize,
    /// Column one past the last character of the region.
    pub end_col: usize,
}

impl Span {
    /// True when the region ends no earlier than it starts.
    pub open spec fn well_formed(self) -> bool {
        self.start_line < self.end_line || (self.start_line == self.end_line
            && self.start_col <= self.end_col)
    }
}

/// The span used for synthesized nodes that have no source of their own.
pub fn dummy_span() -> (s: Span)
    ensures
        s == (Span { start_line: 0, start_col: 0, end_line: 0, end_col: 0 }),
{
    Span { start_line: 0, start_col: 0, end_line: 0, end_col: 0 }
}

/// An identifier of one macro expansion, kept only so that nodes built by an
/// expansion can be told apart from nodes read from a file.
#[derive(Clone, Copy, PartialEq, Eq, Structural, Debug)]
pub struct ExpnId(pub u32);

/// A value of any kind together with the span it was read from.
#[derive(Clone, Debug)]
pub struct Spanned<T> {
    pub node: T,
    pub span: Span,
}

/// Attach a span to a value.
pub fn respan<T>(sp: Span, t: T) -> (r: Spanned<T>)
    ensures
        r.node == t,
        r.span == sp,
{
    Spanned { node: t, span: sp }
}

} // verus!
