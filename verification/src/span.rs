//! Source spans and the visitor that erases them.
use vstd::prelude::*;

verus! {

/// A half-open byte range `[lo, hi)` of a source file.
#[derive(Clone, Copy, Debug, PartialEq, Eq, Structural)]
pub struct Span {
    pub lo: u32,
    pub hi: u32,
}

impl Span {
    /// The empty span at offset zero, which despanning leaves everywhere.
    pub open spec fn zero() -> Span {
        Span { lo: 0, hi: 0 }
    }

    /// Whether the span has been erased.
    pub open spec fn is_zero(self) -> bool {
        self.lo == 0 && self.hi == 0
    }
}

/// A visitor that erases every span it is shown, so that two syntax trees
/// that differ only in where their nodes came from compare equal.
#[derive(Clone, Copy, Debug)]
pub struct AstDespanner;

impl AstDespanner {
    /// Erases one span: both ends are set to zero.
    pub fn visit_span(&mut self, span: &mut Span)
        ensures
            *final(span) == Span::zero(),
    {
        span.hi = 0;
        span.lo = 0;
    }
}

} // verus!
