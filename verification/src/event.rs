//! Input events.

use vstd::prelude::*;
use crate::geometry::Point;

verus! {

/// An input event. A pointer event carries the pointer's position in the
/// coordinate space of the widget that receives it.
#[derive(Clone, Copy, Debug, PartialEq, Eq, Structural)]
pub enum Event {
    /// A pointer button went down.
    MouseDown(Point),
    /// A pointer button came up.
    MouseUp(Point),
    /// The pointer moved.
    MouseMoved(Point),
    /// A key went down; the code names the key.
    KeyDown(u32),
    /// A key came up.
    KeyUp(u32),
}

impl Event {
    /// The pointer position of a pointer event.
    pub open spec fn spec_position(self) -> Option<Point> {
        match self {
            Event::MouseDown(p) => Some(p),
            Event::MouseUp(p) => Some(p),
            Event::MouseMoved(p) => Some(p),
            Event::KeyDown(_) => None,
            Event::KeyUp(_) => None,
        }
    }

    /// The same event as seen from a coordinate space whose origin is at
    /// `base`: a pointer position is moved, anything else stays.
    pub open spec fn spec_relative_to(self, base: Point) -> Event {
        match self {
            Event::MouseDown(p) => Event::MouseDown(p.spec_minus(base)),
            Event::MouseUp(p) => Event::MouseUp(p.spec_minus(base)),
            Event::MouseMoved(p) => Event::MouseMoved(p.spec_minus(base)),
            Event::KeyDown(k) => Event::KeyDown(k),
            Event::KeyUp(k) => Event::KeyUp(k),
        }
    }

    /// The pointer position, if this is a pointer event.
    pub fn position(&self) -> (p: Option<Point>)
        ensures
            p == self.spec_position(),
    {
        match self {
            Event::MouseDown(p) => Some(*p),
            Event::MouseUp(p) => Some(*p),
            Event::MouseMoved(p) => Some(*p),
            Event::KeyDown(_) => None,
            Event::KeyUp(_) => None,
        }
    }

    /// The event as seen from the coordinate space with origin `base`.
    pub fn relative_to(&self, base: Point) -> (e: Event)
        ensures
            e == self.spec_relative_to(base),
    {
        match self {
            Event::MouseDown(p) => Event::MouseDown(p.minus(base)),
            Event::MouseUp(p) => Event::MouseUp(p.minus(base)),
            Event::MouseMoved(p) => Event::MouseMoved(p.minus(base)),
            Event::KeyDown(k) => Event::KeyDown(*k),
            Event::KeyUp(k) => Event::KeyUp(*k),
        }
    }
}

} // verus!
