//! A widget with a fixed width or height.

use vstd::prelude::*;
use crate::constraints::{clamp, BoxConstraints};
use crate::context::{EventCtx, LayoutCtx, PaintCtx, PaintOp, UpdateCtx};
use crate::data::Data;
use crate::env::Env;
use crate::event::Event;
use crate::geometry::{Point, Rect, Size, UNBOUNDED};
use crate::pod::WidgetPod;
use crate::widget::Widget;

verus! {

/// A widget that forces a width, a height or both on its child, as far as
/// its own constraints allow. A length of `UNBOUNDED` takes all the room
/// there is.
pub struct SizedBox<T, W> {
    pub width: Option<u32>,
    pub height: Option<u32>,
    pub child: WidgetPod<T, W>,
}

impl<T: Data, W: Widget<T>> SizedBox<T, W> {
    /// A box around `child` that forces nothing yet.
    pub open spec fn spec_new(child: W) -> Self {
        SizedBox { width: None, height: None, child: WidgetPod::spec_new(child) }
    }

    /// Wraps `child` in a box that forces nothing yet.
    pub fn new(child: W) -> (sized: Self)
        ensures
            sized == Self::spec_new(child),
            child.inv() ==> sized.inv(),
    {
        SizedBox { width: None, height: None, child: WidgetPod::new(child) }
    }

    /// Sets the width.
    pub fn width(self, width: u32) -> (sized: Self)
        ensures
            sized == (SizedBox { width: Some(width), ..self }),
    {
        SizedBox { width: Some(width), height: self.height, child: self.child }
    }

    /// Sets the height.
    pub fn height(self, height: u32) -> (sized: Self)
        ensures
            sized == (SizedBox { height: Some(height), ..self }),
    {
        SizedBox { width: self.width, height: Some(height), child: self.child }
    }

    /// Makes the box take all the room there is on both axes.
    pub fn expand(self) -> (sized: Self)
        ensures
            sized == (SizedBox { width: Some(UNBOUNDED), height: Some(UNBOUNDED), ..self }),
    {
        SizedBox { width: Some(UNBOUNDED), height: Some(UNBOUNDED), child: self.child }
    }

    /// Sets the width of a box that exists already.
    pub fn fixed_width(self, width: u32) -> (sized: Self)
        ensures
            sized == (SizedBox { width: Some(width), ..self }),
    {
        self.width(width)
    }

    /// Sets the height of a box that exists already.
    pub fn fixed_height(self, height: u32) -> (sized: Self)
        ensures
            sized == (SizedBox { height: Some(height), ..self }),
    {
        self.height(height)
    }

    /// The least and the greatest length left to the child on one axis:
    /// both are the forced length, brought into `lo ..= hi`, where one is
    /// forced, and `lo` and `hi` themselves where none is.
    pub open spec fn axis(forced: Option<u32>, lo: u32, hi: u32) -> (u32, u32) {
        match forced {
            Some(v) => {
                let c = clamp(v as int, lo as int, hi as int) as u32;
                (c, c)
            },
            None => (lo, hi),
        }
    }

    /// The constraints under which the child is laid out.
    pub open spec fn child_constraints(&self, bc: BoxConstraints) -> BoxConstraints {
        let w = Self::axis(self.width, bc.min.width, bc.max.width);
        let h = Self::axis(self.height, bc.min.height, bc.max.height);
        BoxConstraints {
            min: Size { width: w.0, height: h.0 },
            max: Size { width: w.1, height: h.1 },
        }
    }

    /// Computes the constraints under which the child is laid out.
    pub fn constraints_for_child(&self, bc: &BoxConstraints) -> (child_bc: BoxConstraints)
        ensures
            child_bc == self.child_constraints(*bc),
            bc.wf() ==> child_bc.wf(),
            bc.wf() ==> forall|s: Size| child_bc.contains(s) ==> bc.contains(s),
    {
        let (min_w, max_w): (u32, u32) = match self.width {
            Some(v) => {
                let c: u32 = if v < bc.min.width {
                    bc.min.width
                } else if v > bc.max.width {
                    bc.max.width
                } else {
                    v
                };
                (c, c)
            },
            None => (bc.min.width, bc.max.width),
        };
        let (min_h, max_h): (u32, u32) = match self.height {
            Some(v) => {
                let c: u32 = if v < bc.min.height {
                    bc.min.height
                } else if v > bc.max.height {
                    bc.max.height
                } else {
                    v
                };
                (c, c)
            },
            None => (bc.min.height, bc.max.height),
        };
        BoxConstraints {
            min: Size { width: min_w, height: min_h },
            max: Size { width: max_w, height: max_h },
        }
    }
}

impl<T: Data, W: Widget<T>> Widget<T> for SizedBox<T, W> {
    open spec fn inv(&self) -> bool {
        self.child.inv()
    }

    /// The event goes to the child.
    open spec fn on_event(&self, ctx: EventCtx, event: Event, data: T, env: Env) -> (
        Self,
        EventCtx,
        T,
    ) {
        let (child, c, d) = self.child.on_event(ctx, event, data, env);
        (SizedBox { child, ..*self }, c, d)
    }

    /// The update goes to the child.
    open spec fn on_update(&self, ctx: UpdateCtx, old_data: Option<T>, data: T, env: Env) -> (
        Self,
        UpdateCtx,
    ) {
        let (child, c) = self.child.on_update(ctx, data, env);
        (SizedBox { child, ..*self }, c)
    }

    /// The child is laid out under the tightened constraints and put at the
    /// origin; its size is the size of the whole.
    open spec fn on_layout(&self, ctx: LayoutCtx, bc: BoxConstraints, data: T, env: Env) -> (
        Self,
        Size,
    ) {
        let (child, size) = self.child.on_layout(ctx, self.child_constraints(bc), data, env);
        (
            SizedBox {
                child: WidgetPod {
                    layout_rect: Some(Rect { origin: Point::spec_origin(), size }),
                    ..child
                },
                ..*self
            },
            size,
        )
    }

    /// A sized box draws nothing of its own.
    open spec fn on_paint(&self, origin: Point, data: T, env: Env) -> (Self, Seq<PaintOp>) {
        let (child, ops) = self.child.on_paint(origin, data, env);
        (SizedBox { child, ..*self }, ops)
    }

    fn event(&mut self, ctx: &mut EventCtx, event: &Event, data: &mut T, env: &Env) {
        self.child.event(ctx, event, data, env);
    }

    fn update(&mut self, ctx: &mut UpdateCtx, old_data: Option<&T>, data: &T, env: &Env) {
        self.child.update(ctx, data, env);
    }

    fn layout(&mut self, ctx: &mut LayoutCtx, bc: &BoxConstraints, data: &T, env: &Env) -> (size:
        Size) {
        let child_bc = self.constraints_for_child(bc);
        let size = self.child.layout(ctx, &child_bc, data, env);
        self.child.set_layout_rect(Rect::from_origin_size(Point::origin(), size));
        size
    }

    fn paint(&mut self, ctx: &mut PaintCtx, data: &T, env: &Env) {
        self.child.paint(ctx, data, env);
    }

    proof fn lemma_event(&self, ctx: EventCtx, event: Event, data: T, env: Env) {
        self.child.lemma_event(ctx, event, data, env);
    }

    proof fn lemma_update(&self, ctx: UpdateCtx, old_data: Option<T>, data: T, env: Env) {
        self.child.lemma_update(ctx, data, env);
    }

    proof fn lemma_layout(&self, ctx: LayoutCtx, bc: BoxConstraints, data: T, env: Env) {
        self.child.lemma_layout(ctx, self.child_constraints(bc), data, env);
    }

    proof fn lemma_paint(&self, origin: Point, data: T, env: Env) {
        self.child.lemma_paint(origin, data, env);
    }

    proof fn lemma_update_idempotent(
        &self,
        ctx: UpdateCtx,
        again: UpdateCtx,
        old_data: Option<T>,
        data: T,
        env: Env,
    ) {
        self.child.lemma_update_idempotent(ctx, again, data, env);
    }

    proof fn lemma_paint_idempotent(&self, origin: Point, data: T, env: Env) {
        self.child.lemma_paint_idempotent(origin, data, env);
    }
}

} // verus!
