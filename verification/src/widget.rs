//! The capability interface that every node of the widget tree implements.

pub mod align;
pub mod button;
pub mod container;
pub mod either;
pub mod env_scope;
pub mod label;
pub mod padding;
pub mod parse;
pub mod sized_box;
pub mod widget_ext;

use vstd::prelude::*;
use crate::constraints::BoxConstraints;
use crate::context::{EventCtx, LayoutCtx, PaintCtx, PaintOp, UpdateCtx};
use crate::env::Env;
use crate::event::Event;
use crate::geometry::{Point, Size};

verus! {

/// The value behind an optional reference.
pub open spec fn owned<T>(r: Option<&T>) -> Option<T> {
    match r {
        Some(t) => Some(*t),
        None => None,
    }
}

/// A node of the widget tree, over application data of type `T`.
///
/// A widget takes part in four passes, which the host issues in this order:
/// `event`, `update`, `layout`, `paint`. Each pass has a model, a
/// specification function (`on_event`, `on_update`, `on_layout`,
/// `on_paint`) that says what the pass makes of the widget and of what is
/// handed to it, and the executable method is bound to that model. A
/// combinator states its model over the models of its children, so the model
/// of a tree says what a pass does to every node of it.
///
/// Beyond its own model, every widget owes the tree the laws that the proof
/// functions of this trait state: a pass keeps the widget's invariant, it
/// only ever adds requests to a context, a layout stays within its
/// constraints, a repeated update requests nothing new, and a repeated
/// paint draws the same again.
pub trait Widget<T>: Sized {
    /// The widget's invariant. Constructors establish it, passes keep it.
    spec fn inv(&self) -> bool;

    /// The event pass: the widget, the context and the data after `event`
    /// was handled.
    spec fn on_event(&self, ctx: EventCtx, event: Event, data: T, env: Env) -> (Self, EventCtx, T);

    /// The update pass: the widget and the context after the widget took
    /// note that the data is now `data`.
    spec fn on_update(&self, ctx: UpdateCtx, old_data: Option<T>, data: T, env: Env) -> (
        Self,
        UpdateCtx,
    );

    /// The layout pass: the widget after layout under `bc`, and its size.
    spec fn on_layout(&self, ctx: LayoutCtx, bc: BoxConstraints, data: T, env: Env) -> (Self, Size);

    /// The paint pass: the widget after painting, and the operations it
    /// issues when its origin lies at `origin` on the surface.
    spec fn on_paint(&self, origin: Point, data: T, env: Env) -> (Self, Seq<PaintOp>);

    /// Handles an event. The widget may change the data, and forwards the
    /// event to those of its children that are to receive it.
    fn event(&mut self, ctx: &mut EventCtx, event: &Event, data: &mut T, env: &Env)
        requires
            old(self).inv(),
        ensures
            (*final(self), *final(ctx), *final(data)) == old(self).on_event(
                *old(ctx),
                *event,
                *old(data),
                *env,
            ),
            final(self).inv(),
            old(ctx).raised_to(*final(ctx)),
    ;

    /// Takes note of data that may have changed since the last pass.
    fn update(&mut self, ctx: &mut UpdateCtx, old_data: Option<&T>, data: &T, env: &Env)
        requires
            old(self).inv(),
        ensures
            (*final(self), *final(ctx)) == old(self).on_update(
                *old(ctx),
                owned(old_data),
                *data,
                *env,
            ),
            final(self).inv(),
            old(ctx).raised_to(*final(ctx)),
    ;

    /// Lays the widget out under `bc` and returns its size, which lies
    /// within `bc`. A widget with children gives each child that takes part
    /// its rectangle before it returns.
    fn layout(&mut self, ctx: &mut LayoutCtx, bc: &BoxConstraints, data: &T, env: &Env) -> (size:
        Size)
        requires
            old(self).inv(),
            bc.wf(),
        ensures
            (*final(self), size) == old(self).on_layout(*old(ctx), *bc, *data, *env),
            final(self).inv(),
            bc.contains(size),
            *final(ctx) == *old(ctx),
    ;

    /// Paints the widget and those of its children that are to be seen.
    fn paint(&mut self, ctx: &mut PaintCtx, data: &T, env: &Env)
        requires
            old(self).inv(),
        ensures
            *final(self) == old(self).on_paint(old(ctx).origin, *data, *env).0,
            final(ctx).ops@ == old(ctx).ops@ + old(self).on_paint(old(ctx).origin, *data, *env).1,
            final(ctx).origin == old(ctx).origin,
            final(self).inv(),
    ;

    /// Handling an event keeps the invariant and withdraws no request.
    proof fn lemma_event(&self, ctx: EventCtx, event: Event, data: T, env: Env)
        requires
            self.inv(),
        ensures
            self.on_event(ctx, event, data, env).0.inv(),
            ctx.raised_to(self.on_event(ctx, event, data, env).1),
    ;

    /// An update keeps the invariant and withdraws no request.
    proof fn lemma_update(&self, ctx: UpdateCtx, old_data: Option<T>, data: T, env: Env)
        requires
            self.inv(),
        ensures
            self.on_update(ctx, old_data, data, env).0.inv(),
            ctx.raised_to(self.on_update(ctx, old_data, data, env).1),
    ;

    /// A layout keeps the invariant, and the size lies within the
    /// constraints.
    proof fn lemma_layout(&self, ctx: LayoutCtx, bc: BoxConstraints, data: T, env: Env)
        requires
            self.inv(),
            bc.wf(),
        ensures
            self.on_layout(ctx, bc, data, env).0.inv(),
            bc.contains(self.on_layout(ctx, bc, data, env).1),
    ;

    /// Painting keeps the invariant.
    proof fn lemma_paint(&self, origin: Point, data: T, env: Env)
        requires
            self.inv(),
        ensures
            self.on_paint(origin, data, env).0.inv(),
    ;

    /// A second update with the same old and new data and the same
    /// environment changes nothing and requests nothing.
    proof fn lemma_update_idempotent(
        &self,
        ctx: UpdateCtx,
        again: UpdateCtx,
        old_data: Option<T>,
        data: T,
        env: Env,
    )
        requires
            self.inv(),
        ensures
            self.on_update(ctx, old_data, data, env).0.on_update(again, old_data, data, env) == (
                self.on_update(ctx, old_data, data, env).0,
                again,
            ),
    ;

    /// Painting again draws the same again: a paint changes nothing that a
    /// paint depends on.
    proof fn lemma_paint_idempotent(&self, origin: Point, data: T, env: Env)
        requires
            self.inv(),
        ensures
            self.on_paint(origin, data, env).0.on_paint(origin, data, env) == self.on_paint(
                origin,
                data,
                env,
            ),
    ;
}

} // verus!
