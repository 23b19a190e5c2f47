//! Collects the outline callbacks of a native engine and hands the path back
//! in design space, where the vertical axis points up.

use vstd::prelude::*;

verus! {

/// The sign bit of a single-precision number.
pub const SIGN_BIT: u32 = 0x8000_0000;

/// A single-precision coordinate, carried as its IEEE 754 bit pattern so that
/// no rounding can touch it on the way through.
#[derive(Clone, Copy, Debug, PartialEq, Eq, Structural)]
pub struct Coord {
    pub bits: u32,
}

impl Coord {
    /// The coordinate with its sign flipped: the same magnitude on the other
    /// side of zero.
    pub open spec fn spec_negated(self) -> Coord {
        Coord { bits: self.bits ^ SIGN_BIT }
    }

    /// Negates the coordinate. Negating a single-precision number flips its
    /// sign bit and leaves every other bit alone.
    pub fn negated(self) -> (flipped: Coord)
        ensures
            flipped == self.spec_negated(),
    {
        Coord { bits: self.bits ^ SIGN_BIT }
    }

    /// Negating twice gives the coordinate back.
    pub proof fn lemma_negated_twice(self)
        ensures
            self.spec_negated().spec_negated() == self,
    {
        let bits = self.bits;
        assert((bits ^ 0x8000_0000u32) ^ 0x8000_0000u32 == bits) by (bit_vector);
    }

    /// Negating always changes the coordinate: no bit pattern is its own negation.
    pub proof fn lemma_negated_differs(self)
        ensures
            self.spec_negated() != self,
    {
        let bits = self.bits;
        assert(bits ^ 0x8000_0000u32 != bits) by (bit_vector);
    }
}

/// A point of an outline.
#[derive(Clone, Copy, Debug, PartialEq, Eq, Structural)]
pub struct Point {
    pub x: Coord,
    pub y: Coord,
}

/// The point that a native callback means by `(x, y)`: native outlines grow
/// downwards, so the vertical coordinate is negated.
pub open spec fn flipped(x: Coord, y: Coord) -> Point {
    Point { x, y: y.spec_negated() }
}

/// One step of an outline.
#[derive(Clone, Copy, Debug, PartialEq, Eq)]
pub enum PathEvent {
    MoveTo(Point),
    LineTo(Point),
    CubicTo(Point, Point, Point),
    Close,
}

/// The events of one outline request, in the order in which the native engine
/// reported them.
pub struct OutlineBuffer {
    path_events: Vec<PathEvent>,
}

impl View for OutlineBuffer {
    type V = Seq<PathEvent>;

    closed spec fn view(&self) -> Seq<PathEvent> {
        self.path_events@
    }
}

impl OutlineBuffer {
    /// A buffer that holds no event.
    pub fn new() -> (buffer: OutlineBuffer)
        ensures
            buffer@ == Seq::<PathEvent>::empty(),
    {
        OutlineBuffer { path_events: Vec::new() }
    }

    /// Records the start of a contour at the native point `(x, y)`.
    pub fn move_to(&mut self, x: Coord, y: Coord)
        ensures
            final(self)@ == old(self)@.push(PathEvent::MoveTo(flipped(x, y))),
    {
        self.path_events.push(PathEvent::MoveTo(Point { x, y: y.negated() }));
    }

    /// Records a straight segment to the native point `(x, y)`.
    pub fn line_to(&mut self, x: Coord, y: Coord)
        ensures
            final(self)@ == old(self)@.push(PathEvent::LineTo(flipped(x, y))),
    {
        self.path_events.push(PathEvent::LineTo(Point { x, y: y.negated() }));
    }

    /// Records a cubic curve with two native control points to the native point `(x, y)`.
    pub fn curve_to(
        &mut self,
        cp0x: Coord,
        cp0y: Coord,
        cp1x: Coord,
        cp1y: Coord,
        x: Coord,
        y: Coord,
    )
        ensures
            final(self)@ == old(self)@.push(
                PathEvent::CubicTo(flipped(cp0x, cp0y), flipped(cp1x, cp1y), flipped(x, y)),
            ),
    {
        self.path_events.push(
            PathEvent::CubicTo(
                Point { x: cp0x, y: cp0y.negated() },
                Point { x: cp1x, y: cp1y.negated() },
                Point { x, y: y.negated() },
            ),
        );
    }

    /// Records the end of a contour.
    pub fn close(&mut self)
        ensures
            final(self)@ == old(self)@.push(PathEvent::Close),
    {
        self.path_events.push(PathEvent::Close);
    }

    /// Drains the buffer: hands out every recorded event, first to last, and
    /// leaves the buffer empty.
    pub fn flush(&mut self) -> (events: Vec<PathEvent>)
        ensures
            events@ == old(self)@,
            final(self)@ == Seq::<PathEvent>::empty(),
    {
        let mut events: Vec<PathEvent> = Vec::new();
        core::mem::swap(&mut self.path_events, &mut events);
        events
    }
}

} // verus!
