//! The contexts that accompany the four passes over the widget tree.

use vstd::prelude::*;
use crate::env::Color;
use crate::geometry::{Point, Rect};

verus! {

/// What a widget may read and request while it handles an event.
#[derive(Clone, Copy, Debug, PartialEq, Eq, Structural)]
pub struct EventCtx {
    /// Whether the pointer is over the widget that handles the event.
    pub is_hot: bool,
    /// Whether some widget has dealt with the event.
    pub is_handled: bool,
    /// Whether a new layout and paint pass has been requested.
    pub needs_inval: bool,
}

impl EventCtx {
    /// A context with nothing requested, for a widget the pointer is not over.
    pub fn new() -> (ctx: EventCtx)
        ensures
            ctx == (EventCtx { is_hot: false, is_handled: false, needs_inval: false }),
    {
        EventCtx { is_hot: false, is_handled: false, needs_inval: false }
    }

    /// That `after` differs from `self` only by requests that were added:
    /// nothing requested is withdrawn, and the hot state is the same.
    pub open spec fn raised_to(self, after: EventCtx) -> bool {
        &&& after.is_hot == self.is_hot
        &&& self.is_handled ==> after.is_handled
        &&& self.needs_inval ==> after.needs_inval
    }

    /// Whether the pointer is over the widget that handles the event.
    pub fn is_hot(&self) -> (b: bool)
        ensures
            b == self.is_hot,
    {
        self.is_hot
    }

    /// Whether some widget has dealt with the event.
    pub fn is_handled(&self) -> (b: bool)
        ensures
            b == self.is_handled,
    {
        self.is_handled
    }

    /// Marks the event as dealt with.
    pub fn set_handled(&mut self)
        ensures
            *final(self) == (EventCtx { is_handled: true, ..*old(self) }),
    {
        self.is_handled = true;
    }

    /// Requests a new layout and paint pass.
    pub fn invalidate(&mut self)
        ensures
            *final(self) == (EventCtx { needs_inval: true, ..*old(self) }),
    {
        self.needs_inval = true;
    }
}

/// What a widget may request while it takes note of changed data.
#[derive(Clone, Copy, Debug, PartialEq, Eq, Structural)]
pub struct UpdateCtx {
    /// Whether a new layout and paint pass has been requested.
    pub needs_inval: bool,
}

impl UpdateCtx {
    /// A context with nothing requested.
    pub fn new() -> (ctx: UpdateCtx)
        ensures
            ctx == (UpdateCtx { needs_inval: false }),
    {
        UpdateCtx { needs_inval: false }
    }

    /// That `after` keeps every request of `self`.
    pub open spec fn raised_to(self, after: UpdateCtx) -> bool {
        self.needs_inval ==> after.needs_inval
    }

    /// Requests a new layout and paint pass.
    pub fn invalidate(&mut self)
        ensures
            *final(self) == (UpdateCtx { needs_inval: true }),
    {
        self.needs_inval = true;
    }
}

/// What a widget may read while it is laid out: the metrics by which a leaf
/// measures its text. The host supplies them from its text service.
#[derive(Clone, Copy, Debug, PartialEq, Eq, Structural)]
pub struct LayoutCtx {
    /// The width that one character takes.
    pub advance: u32,
    /// The height of a line of text.
    pub line_height: u32,
}

impl LayoutCtx {
    /// A context with the given text metrics.
    pub fn new(advance: u32, line_height: u32) -> (ctx: LayoutCtx)
        ensures
            ctx == (LayoutCtx { advance, line_height }),
    {
        LayoutCtx { advance, line_height }
    }
}

/// What a shape is filled or stroked with.
#[derive(Clone, Copy, Debug, PartialEq, Eq, Structural)]
pub enum PaintBrush {
    /// One colour.
    Solid(Color),
    /// A gradient between two colours.
    Gradient { from: Color, to: Color },
}

/// One drawing operation, in the coordinates of the paint surface.
#[derive(Debug, PartialEq, Eq)]
pub enum PaintOp {
    /// Fill a rectangle.
    Fill { rect: Rect, brush: PaintBrush },
    /// Stroke the border of a rectangle, `width` wide, inside its edge.
    Stroke { rect: Rect, brush: PaintBrush, width: u32 },
    /// Draw a line of text with its top-left corner at `at`.
    Text { at: Point, text: String, color: Color },
}

/// The paint surface as the widgets see it: the position of the widget that
/// is being painted, and the drawing operations issued so far. The host hands
/// the operations to its rendering backend.
pub struct PaintCtx {
    /// Where the origin of the widget being painted lies on the surface.
    pub origin: Point,
    /// The operations issued so far, first to last.
    pub ops: Vec<PaintOp>,
}

impl PaintCtx {
    /// An empty surface, painting at its origin.
    pub fn new() -> (ctx: PaintCtx)
        ensures
            ctx.origin == Point::spec_origin(),
            ctx.ops@ == Seq::<PaintOp>::empty(),
    {
        PaintCtx { origin: Point { x: 0, y: 0 }, ops: Vec::new() }
    }

    /// `rect`, given relative to the widget being painted, on the surface.
    pub open spec fn placed(origin: Point, rect: Rect) -> Rect {
        Rect { origin: rect.origin.spec_plus(origin), size: rect.size }
    }

    /// Fills `rect`, given relative to the widget being painted.
    pub fn fill(&mut self, rect: Rect, brush: PaintBrush)
        ensures
            final(self).origin == old(self).origin,
            final(self).ops@ == old(self).ops@.push(
                PaintOp::Fill { rect: Self::placed(old(self).origin, rect), brush },
            ),
    {
        let placed = Rect { origin: rect.origin.plus(self.origin), size: rect.size };
        self.ops.push(PaintOp::Fill { rect: placed, brush });
    }

    /// Strokes the border of `rect`, given relative to the widget being painted.
    pub fn stroke(&mut self, rect: Rect, brush: PaintBrush, width: u32)
        ensures
            final(self).origin == old(self).origin,
            final(self).ops@ == old(self).ops@.push(
                PaintOp::Stroke { rect: Self::placed(old(self).origin, rect), brush, width },
            ),
    {
        let placed = Rect { origin: rect.origin.plus(self.origin), size: rect.size };
        self.ops.push(PaintOp::Stroke { rect: placed, brush, width });
    }

    /// Draws `text` with its top-left corner at `at`, given relative to the
    /// widget being painted.
    pub fn text(&mut self, at: Point, text: String, color: Color)
        ensures
            final(self).origin == old(self).origin,
            final(self).ops@ == old(self).ops@.push(
                PaintOp::Text { at: at.spec_plus(old(self).origin), text, color },
            ),
    {
        let placed = at.plus(self.origin);
        self.ops.push(PaintOp::Text { at: placed, text, color });
    }
}

} // verus!
