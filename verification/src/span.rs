//! A half-open character-offset range `[start, end)` over a borrowed text
//! buffer: the region a rendered snippet highlights. The span never owns the
//! buffer; it is a reference plus two offsets.

use vstd::prelude::*;

verus! {

/// A highlighted range of `input`. A well-formed span has
/// `start <= end <= input len`; `new` checks this, but the renderer does not
/// rely on it and re-checks the bounds of any span it is handed.
#[derive(Clone, Copy)]
pub struct Span<'i> {
    pub input: &'i str,
    pub start: usize,
    pub end: usize,
}

impl<'i> Span<'i> {
    /// Whether the offsets lie within the buffer, in order.
    pub open spec fn in_bounds(self) -> bool {
        self.start <= self.end <= self.input@.len()
    }

    /// A span over `input`, when the offsets are within bounds and ordered.
    pub fn new(input: &'i str, start: usize, end: usize) -> (r: Option<Span<'i>>)
        ensures
            r is Some <==> start <= end <= input@.len(),
            r matches Some(sp) ==> sp == (Span { input, start, end }),
    {
        if start <= end && end <= input.unicode_len() {
            Some(Span { input, start, end })
        } else {
            None
        }
    }

    /// The whole buffer the span points into.
    pub fn get_input(&self) -> (r: &'i str)
        ensures
            r == self.input,
    {
        self.input
    }

    /// The starting offset.
    pub fn start(&self) -> (r: usize)
        ensures
            r == self.start,
    {
        self.start
    }

    /// The offset one past the last highlighted character.
    pub fn end(&self) -> (r: usize)
        ensures
            r == self.end,
    {
        self.end
    }
}

} // verus!
