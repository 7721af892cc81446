use vstd::prelude::*;

verus! {

/// A region of source text that a value came from, as byte offsets.
///
/// Errors carry the span of the value they complain about, so that the
/// host can point at the offending input.
#[derive(Clone, Copy, Debug, PartialEq, Eq, Structural)]
pub struct Span {
    pub start: usize,
    pub end: usize,
}

impl Span {
    /// The span used where no source location is known.
    pub fn unknown() -> (s: Span)
        ensures
            s == Span::unknown_spec(),
    {
        Span { start: 0, end: 0 }
    }

    /// The value `unknown` returns.
    pub open spec fn unknown_spec() -> Span {
        Span { start: 0, end: 0 }
    }
}

} // verus!
