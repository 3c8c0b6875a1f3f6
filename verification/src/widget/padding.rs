//! A widget that keeps room free around its child.

use vstd::prelude::*;
use crate::constraints::{lemma_shrink_wf, BoxConstraints};
use crate::context::{EventCtx, LayoutCtx, PaintCtx, PaintOp, UpdateCtx};
use crate::data::Data;
use crate::env::Env;
use crate::event::Event;
use crate::geometry::{Insets, Point, Rect, Size};
use crate::pod::WidgetPod;
use crate::widget::Widget;

verus! {

/// A widget that is its child with `insets` of free room around it.
pub struct Padding<T, W> {
    pub insets: Insets,
    pub child: WidgetPod<T, W>,
}

impl<T: Data, W: Widget<T>> Padding<T, W> {
    /// `child` with `insets` around it.
    pub open spec fn spec_new(insets: Insets, child: W) -> Self {
        Padding { insets, child: WidgetPod::spec_new(child) }
    }

    /// Wraps `child` in padding of `insets`.
    pub fn new(insets: Insets, child: W) -> (padding: Self)
        ensures
            padding == Self::spec_new(insets, child),
            child.inv() ==> padding.inv(),
    {
        Padding { insets, child: WidgetPod::new(child) }
    }

    /// The constraints under which the child is laid out: those of the
    /// whole, less the room that the insets take.
    pub open spec fn child_constraints(&self, bc: BoxConstraints) -> BoxConstraints {
        bc.spec_shrink(self.insets.spec_x_total(), self.insets.spec_y_total())
    }

    /// Where the child is put: inside the left and top insets.
    pub open spec fn child_origin(&self) -> Point {
        Point { x: self.insets.left as i64, y: self.insets.top as i64 }
    }
}

impl<T: Data, W: Widget<T>> Widget<T> for Padding<T, W> {
    open spec fn inv(&self) -> bool {
        self.child.inv()
    }

    /// The event goes to the child.
    open spec fn on_event(&self, ctx: EventCtx, event: Event, data: T, env: Env) -> (
        Self,
        EventCtx,
        T,
    ) {
        let (child, c, d) = self.child.on_event(ctx, event, data, env);
        (Padding { child, ..*self }, c, d)
    }

    /// The update goes to the child.
    open spec fn on_update(&self, ctx: UpdateCtx, old_data: Option<T>, data: T, env: Env) -> (
        Self,
        UpdateCtx,
    ) {
        let (child, c) = self.child.on_update(ctx, data, env);
        (Padding { child, ..*self }, c)
    }

    /// The child is laid out in what the insets leave and put inside the
    /// left and top insets; the whole is the child's size and the insets, as
    /// far as the constraints allow.
    open spec fn on_layout(&self, ctx: LayoutCtx, bc: BoxConstraints, data: T, env: Env) -> (
        Self,
        Size,
    ) {
        let (child, size) = self.child.on_layout(ctx, self.child_constraints(bc), data, env);
        (
            Padding {
                child: WidgetPod {
                    layout_rect: Some(Rect { origin: self.child_origin(), size }),
                    ..child
                },
                ..*self
            },
            bc.spec_constrain(
                size.width + self.insets.spec_x_total(),
                size.height + self.insets.spec_y_total(),
            ),
        )
    }

    /// Padding draws nothing of its own.
    open spec fn on_paint(&self, origin: Point, data: T, env: Env) -> (Self, Seq<PaintOp>) {
        let (child, ops) = self.child.on_paint(origin, data, env);
        (Padding { child, ..*self }, ops)
    }

    fn event(&mut self, ctx: &mut EventCtx, event: &Event, data: &mut T, env: &Env) {
        self.child.event(ctx, event, data, env);
    }

    fn update(&mut self, ctx: &mut UpdateCtx, old_data: Option<&T>, data: &T, env: &Env) {
        self.child.update(ctx, data, env);
    }

    fn layout(&mut self, ctx: &mut LayoutCtx, bc: &BoxConstraints, data: &T, env: &Env) -> (size:
        Size) {
        let dx: u64 = self.insets.x_total();
        let dy: u64 = self.insets.y_total();
        let child_bc = bc.shrink(dx, dy);
        let size = self.child.layout(ctx, &child_bc, data, env);
        let origin = Point::new(self.insets.left as i64, self.insets.top as i64);
        self.child.set_layout_rect(Rect::from_origin_size(origin, size));
        bc.constrain_wide(size.width as u64 + dx, size.height as u64 + dy)
    }

    fn paint(&mut self, ctx: &mut PaintCtx, data: &T, env: &Env) {
        self.child.paint(ctx, data, env);
    }

    proof fn lemma_event(&self, ctx: EventCtx, event: Event, data: T, env: Env) {
        self.child.lemma_event(ctx, event, data, env);
    }

    proof fn lemma_update(&self, ctx: UpdateCtx, old_data: Option<T>, data: T, env: Env) {
        self.child.lemma_update(ctx, data, env);
    }

    proof fn lemma_layout(&self, ctx: LayoutCtx, bc: BoxConstraints, data: T, env: Env) {
        lemma_shrink_wf(bc, self.insets.spec_x_total(), self.insets.spec_y_total());
        self.child.lemma_layout(ctx, self.child_constraints(bc), data, env);
    }

    proof fn lemma_paint(&self, origin: Point, data: T, env: Env) {
        self.child.lemma_paint(origin, data, env);
    }

    proof fn lemma_update_idempotent(
        &self,
        ctx: UpdateCtx,
        again: UpdateCtx,
        old_data: Option<T>,
        data: T,
        env: Env,
    ) {
        self.child.lemma_update_idempotent(ctx, again, data, env);
    }

    proof fn lemma_paint_idempotent(&self, origin: Point, data: T, env: Env) {
        self.child.lemma_paint_idempotent(origin, data, env);
    }
}

} // verus!
