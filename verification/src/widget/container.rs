//! A widget that draws a background and a border around its child.

use vstd::prelude::*;
use crate::constraints::{lemma_shrink_wf, BoxConstraints};
use crate::context::{EventCtx, LayoutCtx, PaintBrush, PaintCtx, PaintOp, UpdateCtx};
use crate::data::Data;
use crate::env::Env;
use crate::event::Event;
use crate::geometry::{Point, Rect, Size};
use crate::pod::WidgetPod;
use crate::widget::Widget;

verus! {

/// How a border is drawn.
#[derive(Clone, Copy, Debug, PartialEq, Eq, Structural)]
pub struct BorderStyle {
    pub brush: PaintBrush,
    pub width: u32,
}

/// A widget that decorates its child: a background behind it, a border
/// around it, or both. The border takes room; the child lies inside it.
pub struct Container<T, W> {
    pub background: Option<PaintBrush>,
    pub border: Option<BorderStyle>,
    /// The size that the last layout returned; empty before the first.
    pub size: Size,
    pub child: WidgetPod<T, W>,
}

impl<T: Data, W: Widget<T>> Container<T, W> {
    /// `child` without any decoration yet.
    pub open spec fn spec_new(child: W) -> Self {
        Container {
            background: None,
            border: None,
            size: Size { width: 0, height: 0 },
            child: WidgetPod::spec_new(child),
        }
    }

    /// Wraps `child` in a container without any decoration yet.
    pub fn new(child: W) -> (container: Self)
        ensures
            container == Self::spec_new(child),
            child.inv() ==> container.inv(),
    {
        Container {
            background: None,
            border: None,
            size: Size { width: 0, height: 0 },
            child: WidgetPod::new(child),
        }
    }

    /// Paints the background with `brush`.
    pub fn background(self, brush: PaintBrush) -> (container: Self)
        ensures
            container == (Container { background: Some(brush), ..self }),
    {
        Container {
            background: Some(brush),
            border: self.border,
            size: self.size,
            child: self.child,
        }
    }

    /// Draws a border of `width` with `brush`.
    pub fn border(self, brush: PaintBrush, width: u32) -> (container: Self)
        ensures
            container == (Container { border: Some(BorderStyle { brush, width }), ..self }),
    {
        Container {
            background: self.background,
            border: Some(BorderStyle { brush, width }),
            size: self.size,
            child: self.child,
        }
    }

    /// Sets the background of a container that exists already, where the
    /// fluent `background` of every widget would wrap it in a second one.
    pub fn with_background(self, brush: PaintBrush) -> (container: Self)
        ensures
            container == (Container { background: Some(brush), ..self }),
    {
        self.background(brush)
    }

    /// Sets the border of a container that exists already, where the fluent
    /// `border` of every widget would wrap it in a second one.
    pub fn bordered(self, brush: PaintBrush, width: u32) -> (container: Self)
        ensures
            container == (Container { border: Some(BorderStyle { brush, width }), ..self }),
    {
        self.border(brush, width)
    }

    /// The width of the border; none is a border of no width.
    pub open spec fn border_width(&self) -> int {
        match self.border {
            Some(b) => b.width as int,
            None => 0,
        }
    }

    /// The constraints under which the child is laid out: those of the
    /// whole, less the border on every side.
    pub open spec fn child_constraints(&self, bc: BoxConstraints) -> BoxConstraints {
        bc.spec_shrink(2 * self.border_width(), 2 * self.border_width())
    }

    /// What the container draws of its own when its origin lies at `origin`:
    /// the background, then the border, over its whole size.
    pub open spec fn decoration(&self, origin: Point) -> Seq<PaintOp> {
        let panel = PaintCtx::placed(origin, Rect { origin: Point::spec_origin(), size: self.size });
        let back = match self.background {
            Some(brush) => seq![PaintOp::Fill { rect: panel, brush }],
            None => Seq::<PaintOp>::empty(),
        };
        let edge = match self.border {
            Some(b) => seq![PaintOp::Stroke { rect: panel, brush: b.brush, width: b.width }],
            None => Seq::<PaintOp>::empty(),
        };
        back + edge
    }
}

impl<T: Data, W: Widget<T>> Widget<T> for Container<T, W> {
    open spec fn inv(&self) -> bool {
        self.child.inv()
    }

    /// The event goes to the child.
    open spec fn on_event(&self, ctx: EventCtx, event: Event, data: T, env: Env) -> (
        Self,
        EventCtx,
        T,
    ) {
        let (child, c, d) = self.child.on_event(ctx, event, data, env);
        (Container { child, ..*self }, c, d)
    }

    /// The update goes to the child.
    open spec fn on_update(&self, ctx: UpdateCtx, old_data: Option<T>, data: T, env: Env) -> (
        Self,
        UpdateCtx,
    ) {
        let (child, c) = self.child.on_update(ctx, data, env);
        (Container { child, ..*self }, c)
    }

    /// The child is laid out in what the border leaves and put inside it;
    /// the whole is the child's size and the border, as far as the
    /// constraints allow, and the container remembers that size.
    open spec fn on_layout(&self, ctx: LayoutCtx, bc: BoxConstraints, data: T, env: Env) -> (
        Self,
        Size,
    ) {
        let bw = self.border_width();
        let (child, inner) = self.child.on_layout(ctx, self.child_constraints(bc), data, env);
        let size = bc.spec_constrain(inner.width + 2 * bw, inner.height + 2 * bw);
        (
            Container {
                size,
                child: WidgetPod {
                    layout_rect: Some(
                        Rect { origin: Point { x: bw as i64, y: bw as i64 }, size: inner },
                    ),
                    ..child
                },
                ..*self
            },
            size,
        )
    }

    /// The decoration is drawn first, the child over it.
    open spec fn on_paint(&self, origin: Point, data: T, env: Env) -> (Self, Seq<PaintOp>) {
        let (child, ops) = self.child.on_paint(origin, data, env);
        (Container { child, ..*self }, self.decoration(origin) + ops)
    }

    fn event(&mut self, ctx: &mut EventCtx, event: &Event, data: &mut T, env: &Env) {
        self.child.event(ctx, event, data, env);
    }

    fn update(&mut self, ctx: &mut UpdateCtx, old_data: Option<&T>, data: &T, env: &Env) {
        self.child.update(ctx, data, env);
    }

    fn layout(&mut self, ctx: &mut LayoutCtx, bc: &BoxConstraints, data: &T, env: &Env) -> (size:
        Size) {
        let bw: u32 = match self.border {
            Some(b) => b.width,
            None => 0,
        };
        let both: u64 = 2 * (bw as u64);
        let child_bc = bc.shrink(both, both);
        let inner = self.child.layout(ctx, &child_bc, data, env);
        let origin = Point::new(bw as i64, bw as i64);
        self.child.set_layout_rect(Rect::from_origin_size(origin, inner));
        let size = bc.constrain_wide(inner.width as u64 + both, inner.height as u64 + both);
        self.size = size;
        size
    }

    fn paint(&mut self, ctx: &mut PaintCtx, data: &T, env: &Env) {
        let panel = Rect::from_origin_size(Point::origin(), self.size);
        let ghost before = ctx.ops@;
        match self.background {
            Some(brush) => {
                ctx.fill(panel, brush);
            },
            None => {},
        }
        match self.border {
            Some(b) => {
                ctx.stroke(panel, b.brush, b.width);
            },
            None => {},
        }
        assert(ctx.ops@ == before + self.decoration(ctx.origin));
        self.child.paint(ctx, data, env);
    }

    proof fn lemma_event(&self, ctx: EventCtx, event: Event, data: T, env: Env) {
        self.child.lemma_event(ctx, event, data, env);
    }

    proof fn lemma_update(&self, ctx: UpdateCtx, old_data: Option<T>, data: T, env: Env) {
        self.child.lemma_update(ctx, data, env);
    }

    proof fn lemma_layout(&self, ctx: LayoutCtx, bc: BoxConstraints, data: T, env: Env) {
        lemma_shrink_wf(bc, 2 * self.border_width(), 2 * self.border_width());
        self.child.lemma_layout(ctx, self.child_constraints(bc), data, env);
    }

    proof fn lemma_paint(&self, origin: Point, data: T, env: Env) {
        self.child.lemma_paint(origin, data, env);
    }

    proof fn lemma_update_idempotent(
        &self,
        ctx: UpdateCtx,
        again: UpdateCtx,
        old_data: Option<T>,
        data: T,
        env: Env,
    ) {
        self.child.lemma_update_idempotent(ctx, again, data, env);
    }

    proof fn lemma_paint_idempotent(&self, origin: Point, data: T, env: Env) {
        self.child.lemma_paint_idempotent(origin, data, env);
    }
}

} // verus!
