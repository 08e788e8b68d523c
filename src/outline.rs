//! Assembly of outline-drawing commands into typed path segments.

use vstd::prelude::*;

verus! {

/// A path segment of a glyph outline.
#[derive(Debug, Clone, Copy, PartialEq)]
pub enum Segment<P> {
    /// A straight line.
    Line(P, P),
    /// A quadratic bezier curve: start, control, end.
    Quad(P, P, P),
    /// A cubic bezier curve: start, two controls, end.
    Cubic(P, P, P, P),
}

impl<P> Segment<P> {
    /// The point at which the segment starts.
    pub open spec fn start_point(self) -> P {
        match self {
            Segment::Line(a, _) => a,
            Segment::Quad(a, _, _) => a,
            Segment::Cubic(a, _, _, _) => a,
        }
    }

    /// The point at which the segment ends.
    pub open spec fn end_point(self) -> P {
        match self {
            Segment::Line(_, b) => b,
            Segment::Quad(_, _, b) => b,
            Segment::Cubic(_, _, _, b) => b,
        }
    }
}

/// Builds a glyph outline from move / line / quad / curve / close commands.
///
/// The builder tracks the current point and the start of the open contour, if
/// any. Closing an open contour adds a line back to its start point.
pub struct Builder<P> {
    segments: Vec<Segment<P>>,
    start: Option<P>,
    last: P,
}

impl<P: Copy> Builder<P> {
    /// The segments assembled so far, in insertion order.
    pub closed spec fn segments(&self) -> Seq<Segment<P>> {
        self.segments@
    }

    /// The start point of the open contour, or `None` when no contour is open.
    pub closed spec fn contour_start(&self) -> Option<P> {
        self.start
    }

    /// The current point, where the next segment begins.
    pub closed spec fn current(&self) -> P {
        self.last
    }

    /// An empty builder whose current point is `origin`.
    pub fn new(origin: P) -> (r: Self)
        ensures
            r.segments() == Seq::<Segment<P>>::empty(),
            r.contour_start() == None::<P>,
            r.current() == origin,
    {
        Builder { segments: Vec::new(), start: None, last: origin }
    }

    /// Starts a new contour at `p`.
    pub fn move_to(&mut self, p: P)
        ensures
            final(self).segments() == old(self).segments(),
            final(self).contour_start() == Some(p),
            final(self).current() == p,
    {
        self.start = Some(p);
        self.last = p;
    }

    /// Adds a straight line from the current point to `p`.
    pub fn line_to(&mut self, p: P)
        ensures
            final(self).segments() == old(self).segments().push(Segment::Line(old(self).current(), p)),
            final(self).contour_start() == old(self).contour_start(),
            final(self).current() == p,
    {
        self.segments.push(Segment::Line(self.last, p));
        self.last = p;
    }

    /// Adds a quadratic curve from the current point through control `c` to `p`.
    pub fn quad_to(&mut self, c: P, p: P)
        ensures
            final(self).segments() == old(self).segments().push(Segment::Quad(old(self).current(), c, p)),
            final(self).contour_start() == old(self).contour_start(),
            final(self).current() == p,
    {
        self.segments.push(Segment::Quad(self.last, c, p));
        self.last = p;
    }

    /// Adds a cubic curve from the current point through controls `c1`, `c2`
    /// to `p`.
    pub fn curve_to(&mut self, c1: P, c2: P, p: P)
        ensures
            final(self).segments() == old(self).segments().push(
                Segment::Cubic(old(self).current(), c1, c2, p),
            ),
            final(self).contour_start() == old(self).contour_start(),
            final(self).current() == p,
    {
        self.segments.push(Segment::Cubic(self.last, c1, c2, p));
        self.last = p;
    }

    /// Closes the open contour with a line back to its start point. Without an
    /// open contour nothing changes.
    pub fn close(&mut self)
        ensures
            match old(self).contour_start() {
                Some(s) => {
                    &&& final(self).segments() == old(self).segments().push(
                        Segment::Line(old(self).current(), s),
                    )
                    &&& final(self).contour_start() == None::<P>
                    &&& final(self).current() == s
                },
                None => *final(self) == *old(self),
            },
    {
        if let Some(s) = self.start {
            self.segments.push(Segment::Line(self.last, s));
            self.last = s;
            self.start = None;
        }
    }

    /// Hands out the assembled segments.
    pub fn into_segments(self) -> (r: Vec<Segment<P>>)
        ensures
            r@ == self.segments(),
    {
        self.segments
    }
}

} // verus!
