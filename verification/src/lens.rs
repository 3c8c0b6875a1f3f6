//! Lenses: how a widget over a part of the data is used in a tree over the
//! whole.

use vstd::prelude::*;
use crate::constraints::BoxConstraints;
use crate::context::{EventCtx, LayoutCtx, PaintCtx, PaintOp, UpdateCtx};
use crate::data::Data;
use crate::env::Env;
use crate::event::Event;
use crate::geometry::{Point, Rect, Size};
use crate::pod::WidgetPod;
use crate::widget::Widget;

verus! {

/// A way to take a part of type `U` out of a whole of type `T`, and to put
/// a new part back.
pub trait Lens<T, U> {
    /// The part of `whole`.
    spec fn spec_get(&self, whole: T) -> U;

    /// `whole` with `part` in place of its part.
    spec fn spec_put(&self, whole: T, part: U) -> T;

    /// Takes a copy of the part out of `whole`.
    fn get(&self, whole: &T) -> (part: U)
        ensures
            part == self.spec_get(*whole),
    ;

    /// Puts `part` into `whole`.
    fn put(&self, whole: &mut T, part: U)
        ensures
            *final(whole) == self.spec_put(*old(whole), part),
    ;
}

/// The lens on the first part of a pair.
pub struct First;

impl<A: Data, B> Lens<(A, B), A> for First {
    open spec fn spec_get(&self, whole: (A, B)) -> A {
        whole.0
    }

    open spec fn spec_put(&self, whole: (A, B), part: A) -> (A, B) {
        (part, whole.1)
    }

    fn get(&self, whole: &(A, B)) -> (part: A) {
        whole.0.duplicate()
    }

    fn put(&self, whole: &mut (A, B), part: A) {
        whole.0 = part;
    }
}

/// The lens on the second part of a pair.
pub struct Second;

impl<A, B: Data> Lens<(A, B), B> for Second {
    open spec fn spec_get(&self, whole: (A, B)) -> B {
        whole.1
    }

    open spec fn spec_put(&self, whole: (A, B), part: B) -> (A, B) {
        (whole.0, part)
    }

    fn get(&self, whole: &(A, B)) -> (part: B) {
        whole.1.duplicate()
    }

    fn put(&self, whole: &mut (A, B), part: B) {
        whole.1 = part;
    }
}

/// A widget over a part of the data, used as a widget over the whole.
///
/// In every pass the child sees the part that the lens takes out of the
/// data. After an event the part, as the child left it, is put back.
pub struct LensWrap<U, L, W> {
    pub lens: L,
    pub child: WidgetPod<U, W>,
}

impl<U: Data, L, W: Widget<U>> LensWrap<U, L, W> {
    /// `child` behind `lens`.
    pub open spec fn spec_new(child: W, lens: L) -> Self {
        LensWrap { lens, child: WidgetPod::spec_new(child) }
    }

    /// Wraps `child`, a widget over the part, so that it can stand in a
    /// tree over the whole.
    pub fn new(child: W, lens: L) -> (wrap: Self)
        ensures
            wrap == Self::spec_new(child, lens),
            wrap.child.inv() == child.inv(),
    {
        LensWrap { lens, child: WidgetPod::new(child) }
    }
}

impl<T, U: Data, L: Lens<T, U>, W: Widget<U>> Widget<T> for LensWrap<U, L, W> {
    open spec fn inv(&self) -> bool {
        self.child.inv()
    }

    /// The child handles the event on the part; the part is then put back
    /// into the whole.
    open spec fn on_event(&self, ctx: EventCtx, event: Event, data: T, env: Env) -> (
        Self,
        EventCtx,
        T,
    ) {
        let (child, c, part) = self.child.on_event(ctx, event, self.lens.spec_get(data), env);
        (LensWrap { child, ..*self }, c, self.lens.spec_put(data, part))
    }

    /// The child is updated with the part.
    open spec fn on_update(&self, ctx: UpdateCtx, old_data: Option<T>, data: T, env: Env) -> (
        Self,
        UpdateCtx,
    ) {
        let (child, c) = self.child.on_update(ctx, self.lens.spec_get(data), env);
        (LensWrap { child, ..*self }, c)
    }

    /// The child is laid out under the same constraints, with the part as
    /// its data, and put at the origin.
    open spec fn on_layout(&self, ctx: LayoutCtx, bc: BoxConstraints, data: T, env: Env) -> (
        Self,
        Size,
    ) {
        let (child, size) = self.child.on_layout(ctx, bc, self.lens.spec_get(data), env);
        (
            LensWrap {
                child: WidgetPod {
                    layout_rect: Some(Rect { origin: Point::spec_origin(), size }),
                    ..child
                },
                ..*self
            },
            size,
        )
    }

    /// The child is painted with the part as its data.
    open spec fn on_paint(&self, origin: Point, data: T, env: Env) -> (Self, Seq<PaintOp>) {
        let (child, ops) = self.child.on_paint(origin, self.lens.spec_get(data), env);
        (LensWrap { child, ..*self }, ops)
    }

    fn event(&mut self, ctx: &mut EventCtx, event: &Event, data: &mut T, env: &Env) {
        let mut part = self.lens.get(data);
        self.child.event(ctx, event, &mut part, env);
        self.lens.put(data, part);
    }

    fn update(&mut self, ctx: &mut UpdateCtx, old_data: Option<&T>, data: &T, env: &Env) {
        let part = self.lens.get(data);
        self.child.update(ctx, &part, env);
    }

    fn layout(&mut self, ctx: &mut LayoutCtx, bc: &BoxConstraints, data: &T, env: &Env) -> (size:
        Size) {
        let part = self.lens.get(data);
        let size = self.child.layout(ctx, bc, &part, env);
        self.child.set_layout_rect(Rect::from_origin_size(Point::origin(), size));
        size
    }

    fn paint(&mut self, ctx: &mut PaintCtx, data: &T, env: &Env) {
        let part = self.lens.get(data);
        self.child.paint(ctx, &part, env);
    }

    proof fn lemma_event(&self, ctx: EventCtx, event: Event, data: T, env: Env) {
        self.child.lemma_event(ctx, event, self.lens.spec_get(data), env);
    }

    proof fn lemma_update(&self, ctx: UpdateCtx, old_data: Option<T>, data: T, env: Env) {
        self.child.lemma_update(ctx, self.lens.spec_get(data), env);
    }

    proof fn lemma_layout(&self, ctx: LayoutCtx, bc: BoxConstraints, data: T, env: Env) {
        self.child.lemma_layout(ctx, bc, self.lens.spec_get(data), env);
    }

    proof fn lemma_paint(&self, origin: Point, data: T, env: Env) {
        self.child.lemma_paint(origin, self.lens.spec_get(data), env);
    }

    proof fn lemma_update_idempotent(
        &self,
        ctx: UpdateCtx,
        again: UpdateCtx,
        old_data: Option<T>,
        data: T,
        env: Env,
    ) {
        self.child.lemma_update_idempotent(ctx, again, self.lens.spec_get(data), env);
    }

    proof fn lemma_paint_idempotent(&self, origin: Point, data: T, env: Env) {
        self.child.lemma_paint_idempotent(origin, self.lens.spec_get(data), env);
    }
}

} // verus!
