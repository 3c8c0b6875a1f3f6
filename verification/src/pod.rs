//! The pod: the wrapper through which a parent owns and calls a child.

use vstd::prelude::*;
use crate::constraints::BoxConstraints;
use crate::context::{EventCtx, LayoutCtx, PaintCtx, PaintOp, UpdateCtx};
use crate::data::Data;
use crate::env::Env;
use crate::event::Event;
use crate::geometry::{Point, Rect, Size};
use crate::widget::Widget;

verus! {

/// A child widget together with what its parent keeps about it: the
/// rectangle of its last layout, whether the pointer is over it, whether it
/// asked to be painted again, and the data and environment of its last
/// update.
///
/// A pod owns its widget alone. A new pod knows nothing of a pod that it
/// replaces: the bookkeeping starts afresh.
pub struct WidgetPod<T, W> {
    /// The widget.
    pub inner: W,
    /// The rectangle of the last layout, in the parent's coordinates; `None`
    /// until the first layout.
    pub layout_rect: Option<Rect>,
    /// The data of the last update that reached the widget.
    pub old_data: Option<T>,
    /// The environment of the last update that reached the widget.
    pub env: Option<Env>,
    /// Whether the pointer was over the widget at the last pointer event.
    pub is_hot: bool,
    /// Whether the widget has asked for a new paint since it was last
    /// painted.
    pub needs_inval: bool,
}

impl<T: Data, W: Widget<T>> WidgetPod<T, W> {
    /// The pod's invariant: that of its widget.
    pub open spec fn inv(&self) -> bool {
        self.inner.inv()
    }

    /// A fresh pod around `inner`.
    pub open spec fn spec_new(inner: W) -> Self {
        WidgetPod {
            inner,
            layout_rect: None,
            old_data: None,
            env: None,
            is_hot: false,
            needs_inval: false,
        }
    }

    /// Wraps `inner` in a fresh pod.
    pub fn new(inner: W) -> (pod: Self)
        ensures
            pod == Self::spec_new(inner),
    {
        WidgetPod {
            inner,
            layout_rect: None,
            old_data: None,
            env: None,
            is_hot: false,
            needs_inval: false,
        }
    }

    /// The widget.
    pub fn widget(&self) -> (w: &W)
        ensures
            *w == self.inner,
    {
        &self.inner
    }

    /// Whether a layout has given the widget a rectangle yet.
    pub fn has_layout_rect(&self) -> (b: bool)
        ensures
            b == self.layout_rect.is_some(),
    {
        self.layout_rect.is_some()
    }

    /// The rectangle of the last layout, for hit testing. There is none
    /// before the first layout.
    pub fn layout_rect(&self) -> (r: Rect)
        requires
            self.layout_rect.is_some(),
        ensures
            Some(r) == self.layout_rect,
    {
        match self.layout_rect {
            Some(r) => r,
            None => Rect { origin: Point { x: 0, y: 0 }, size: Size { width: 0, height: 0 } },
        }
    }

    /// Gives the widget its rectangle in the parent's coordinates.
    pub fn set_layout_rect(&mut self, rect: Rect)
        ensures
            *final(self) == (WidgetPod { layout_rect: Some(rect), ..*old(self) }),
    {
        self.layout_rect = Some(rect);
    }

    /// Whether the pointer was over the widget at the last pointer event.
    pub fn is_hot(&self) -> (b: bool)
        ensures
            b == self.is_hot,
    {
        self.is_hot
    }

    /// Whether the widget has asked for a new paint since it was last painted.
    pub fn needs_inval(&self) -> (b: bool)
        ensures
            b == self.needs_inval,
    {
        self.needs_inval
    }

    /// Whether the pointer is over the widget when `event` arrives: a
    /// pointer event decides it by the layout rectangle, any other event
    /// leaves it as it was. Before the first layout the pointer is over
    /// nothing.
    pub open spec fn hot_at(&self, event: Event) -> bool {
        match event.spec_position() {
            Some(p) => match self.layout_rect {
                Some(r) => r.spec_contains(p),
                None => false,
            },
            None => self.is_hot,
        }
    }

    /// `event` in the widget's own coordinates.
    pub open spec fn event_for_child(&self, event: Event) -> Event {
        match self.layout_rect {
            Some(r) => event.spec_relative_to(r.origin),
            None => event,
        }
    }

    /// The event pass. The pod hit-tests the event, hands it to the widget
    /// in the widget's coordinates with the hot state in the context, and
    /// passes the widget's requests on to its own context.
    pub open spec fn on_event(&self, ctx: EventCtx, event: Event, data: T, env: Env) -> (
        Self,
        EventCtx,
        T,
    ) {
        let hot = self.hot_at(event);
        let child_ctx = EventCtx { is_hot: hot, is_handled: ctx.is_handled, needs_inval: false };
        let (inner, c, d) = self.inner.on_event(child_ctx, self.event_for_child(event), data, env);
        (
            WidgetPod {
                inner,
                is_hot: hot,
                needs_inval: self.needs_inval || c.needs_inval,
                ..*self
            },
            EventCtx {
                is_hot: ctx.is_hot,
                is_handled: ctx.is_handled || c.is_handled,
                needs_inval: ctx.needs_inval || c.needs_inval,
            },
            d,
        )
    }

    /// Whether the last update that reached the widget was for this data and
    /// this environment.
    pub open spec fn is_current(&self, data: T, env: Env) -> bool {
        &&& self.old_data matches Some(d) && d.spec_same(&data)
        &&& self.env matches Some(e) && e == env
    }

    /// The update pass. Where neither data nor environment changed since
    /// the last update the widget is not called. Otherwise it is, with the
    /// data of the last update as old data, and the pod keeps the new pair.
    pub open spec fn on_update(&self, ctx: UpdateCtx, data: T, env: Env) -> (Self, UpdateCtx) {
        if self.is_current(data, env) {
            (*self, ctx)
        } else {
            let (inner, c) = self.inner.on_update(
                UpdateCtx { needs_inval: false },
                self.old_data,
                data,
                env,
            );
            (
                WidgetPod {
                    inner,
                    old_data: Some(data),
                    env: Some(env),
                    needs_inval: self.needs_inval || c.needs_inval,
                    ..*self
                },
                UpdateCtx { needs_inval: ctx.needs_inval || c.needs_inval },
            )
        }
    }

    /// The layout pass. The pod records the size that the widget returned,
    /// at the origin that the rectangle had, or at the parent's origin
    /// where there was none.
    pub open spec fn on_layout(&self, ctx: LayoutCtx, bc: BoxConstraints, data: T, env: Env) -> (
        Self,
        Size,
    ) {
        let (inner, size) = self.inner.on_layout(ctx, bc, data, env);
        let origin = match self.layout_rect {
            Some(r) => r.origin,
            None => Point::spec_origin(),
        };
        (WidgetPod { inner, layout_rect: Some(Rect { origin, size }), ..*self }, size)
    }

    /// Where the widget's origin lies on the surface when the parent's lies
    /// at `origin`.
    pub open spec fn paint_origin(&self, origin: Point) -> Point {
        match self.layout_rect {
            Some(r) => r.origin.spec_plus(origin),
            None => origin,
        }
    }

    /// The paint pass. The widget paints at the origin of its layout
    /// rectangle, and its request for a paint is met.
    pub open spec fn on_paint(&self, origin: Point, data: T, env: Env) -> (Self, Seq<PaintOp>) {
        let (inner, ops) = self.inner.on_paint(self.paint_origin(origin), data, env);
        (WidgetPod { inner, needs_inval: false, ..*self }, ops)
    }

    /// Hands an event to the widget.
    pub fn event(&mut self, ctx: &mut EventCtx, event: &Event, data: &mut T, env: &Env)
        requires
            old(self).inv(),
        ensures
            (*final(self), *final(ctx), *final(data)) == old(self).on_event(
                *old(ctx),
                *event,
                *old(data),
                *env,
            ),
            final(self).inv(),
            old(ctx).raised_to(*final(ctx)),
    {
        let hot = match event.position() {
            Some(p) => match self.layout_rect {
                Some(r) => r.contains(p),
                None => false,
            },
            None => self.is_hot,
        };
        let child_event = match self.layout_rect {
            Some(r) => event.relative_to(r.origin),
            None => *event,
        };
        let mut child_ctx = EventCtx { is_hot: hot, is_handled: ctx.is_handled, needs_inval: false };
        self.inner.event(&mut child_ctx, &child_event, data, env);
        self.is_hot = hot;
        self.needs_inval = self.needs_inval || child_ctx.needs_inval;
        ctx.is_handled = ctx.is_handled || child_ctx.is_handled;
        ctx.needs_inval = ctx.needs_inval || child_ctx.needs_inval;
    }

    /// Tells the widget that data or environment may have changed.
    pub fn update(&mut self, ctx: &mut UpdateCtx, data: &T, env: &Env)
        requires
            old(self).inv(),
        ensures
            (*final(self), *final(ctx)) == old(self).on_update(*old(ctx), *data, *env),
            final(self).inv(),
            old(ctx).raised_to(*final(ctx)),
    {
        let data_same = match &self.old_data {
            Some(d) => d.same(data),
            None => false,
        };
        let env_same = match &self.env {
            Some(e) => e.same(env),
            None => false,
        };
        if data_same && env_same {
            return ;
        }
        let mut child_ctx = UpdateCtx { needs_inval: false };
        self.inner.update(&mut child_ctx, self.old_data.as_ref(), data, env);
        self.old_data = Some(data.duplicate());
        self.env = Some(env.clone());
        self.needs_inval = self.needs_inval || child_ctx.needs_inval;
        ctx.needs_inval = ctx.needs_inval || child_ctx.needs_inval;
    }

    /// Lays the widget out and records the size it returned.
    pub fn layout(&mut self, ctx: &mut LayoutCtx, bc: &BoxConstraints, data: &T, env: &Env) -> (size:
        Size)
        requires
            old(self).inv(),
            bc.wf(),
        ensures
            (*final(self), size) == old(self).on_layout(*old(ctx), *bc, *data, *env),
            final(self).inv(),
            bc.contains(size),
            *final(ctx) == *old(ctx),
            final(self).layout_rect.is_some(),
            final(self).layout_rect.unwrap().size == size,
    {
        let size = self.inner.layout(ctx, bc, data, env);
        let origin = match self.layout_rect {
            Some(r) => r.origin,
            None => Point { x: 0, y: 0 },
        };
        self.layout_rect = Some(Rect { origin, size });
        size
    }

    /// Paints the widget at the origin of its layout rectangle.
    pub fn paint(&mut self, ctx: &mut PaintCtx, data: &T, env: &Env)
        requires
            old(self).inv(),
        ensures
            *final(self) == old(self).on_paint(old(ctx).origin, *data, *env).0,
            final(ctx).ops@ == old(ctx).ops@ + old(self).on_paint(old(ctx).origin, *data, *env).1,
            final(ctx).origin == old(ctx).origin,
            final(self).inv(),
    {
        let saved = ctx.origin;
        ctx.origin = match self.layout_rect {
            Some(r) => r.origin.plus(saved),
            None => saved,
        };
        self.inner.paint(ctx, data, env);
        ctx.origin = saved;
        self.needs_inval = false;
    }

    /// Handing an event on keeps the invariant and withdraws no request.
    pub proof fn lemma_event(&self, ctx: EventCtx, event: Event, data: T, env: Env)
        requires
            self.inv(),
        ensures
            self.on_event(ctx, event, data, env).0.inv(),
            ctx.raised_to(self.on_event(ctx, event, data, env).1),
    {
        let child_ctx = EventCtx {
            is_hot: self.hot_at(event),
            is_handled: ctx.is_handled,
            needs_inval: false,
        };
        self.inner.lemma_event(child_ctx, self.event_for_child(event), data, env);
    }

    /// An update keeps the invariant and withdraws no request.
    pub proof fn lemma_update(&self, ctx: UpdateCtx, data: T, env: Env)
        requires
            self.inv(),
        ensures
            self.on_update(ctx, data, env).0.inv(),
            ctx.raised_to(self.on_update(ctx, data, env).1),
    {
        self.inner.lemma_update(UpdateCtx { needs_inval: false }, self.old_data, data, env);
    }

    /// A layout keeps the invariant, the size lies within the constraints,
    /// and the pod holds a rectangle of that size afterwards.
    pub proof fn lemma_layout(&self, ctx: LayoutCtx, bc: BoxConstraints, data: T, env: Env)
        requires
            self.inv(),
            bc.wf(),
        ensures
            self.on_layout(ctx, bc, data, env).0.inv(),
            bc.contains(self.on_layout(ctx, bc, data, env).1),
            self.on_layout(ctx, bc, data, env).0.layout_rect.is_some(),
            self.on_layout(ctx, bc, data, env).0.layout_rect.unwrap().size == self.on_layout(
                ctx,
                bc,
                data,
                env,
            ).1,
    {
        self.inner.lemma_layout(ctx, bc, data, env);
    }

    /// Painting keeps the invariant.
    pub proof fn lemma_paint(&self, origin: Point, data: T, env: Env)
        requires
            self.inv(),
        ensures
            self.on_paint(origin, data, env).0.inv(),
    {
        self.inner.lemma_paint(self.paint_origin(origin), data, env);
    }

    /// A second update with the same data and environment does not reach
    /// the widget: it changes nothing and requests nothing.
    pub proof fn lemma_update_idempotent(&self, ctx: UpdateCtx, again: UpdateCtx, data: T, env: Env)
        ensures
            self.on_update(ctx, data, env).0.on_update(again, data, env) == (
                self.on_update(ctx, data, env).0,
                again,
            ),
    {
        data.lemma_same_reflexive();
    }

    /// Painting again draws the same again, and the pod is as the first
    /// paint left it.
    pub proof fn lemma_paint_idempotent(&self, origin: Point, data: T, env: Env)
        requires
            self.inv(),
        ensures
            self.on_paint(origin, data, env).0.on_paint(origin, data, env) == self.on_paint(
                origin,
                data,
                env,
            ),
    {
        self.inner.lemma_paint_idempotent(self.paint_origin(origin), data, env);
    }
}

} // verus!
