//! A widget that changes the environment for its subtree.

use vstd::prelude::*;
use crate::constraints::BoxConstraints;
use crate::context::{EventCtx, LayoutCtx, PaintCtx, PaintOp, UpdateCtx};
use crate::data::Data;
use crate::env::{Env, Value};
use crate::event::Event;
use crate::func::{is_function1, lemma_result1, result1};
use crate::geometry::{Point, Rect, Size};
use crate::pod::WidgetPod;
use crate::widget::either::Either;
use crate::widget::Widget;

verus! {

/// A widget whose subtree sees a changed environment.
///
/// In every pass the widget hands a copy of the environment that it was
/// given to its closure, and calls its child with what the closure returns.
/// The environment of the caller is not touched: what the closure binds is
/// seen below this widget and nowhere else.
pub struct EnvScope<T, F, W> {
    /// From the environment outside to the environment inside.
    pub f: F,
    pub child: WidgetPod<T, W>,
}

impl<T: Data, F: Fn(Env) -> Env, W: Widget<T>> EnvScope<T, F, W> {
    /// `child` under the environment that `f` makes.
    pub open spec fn spec_new(f: F, child: W) -> Self {
        EnvScope { f, child: WidgetPod::spec_new(child) }
    }

    /// Wraps `child` so that it sees the environment that `f` makes of the
    /// one outside.
    pub fn new(f: F, child: W) -> (scope: Self)
        ensures
            scope == Self::spec_new(f, child),
            is_function1(f) && child.inv() ==> scope.inv(),
    {
        EnvScope { f, child: WidgetPod::new(child) }
    }

    /// The environment that the child sees when the widget is given `env`.
    pub open spec fn scoped(&self, env: Env) -> Env {
        result1(self.f, env)
    }

    /// Computes the environment for the child.
    pub fn enter(&self, env: &Env) -> (inside: Env)
        requires
            is_function1(self.f),
        ensures
            inside == self.scoped(*env),
            call_ensures(self.f, (*env,), inside),
    {
        let inside = (self.f)(env.clone());
        proof {
            lemma_result1(self.f, *env, inside);
        }
        inside
    }
}

impl<T: Data, F: Fn(Env) -> Env, W: Widget<T>> Widget<T> for EnvScope<T, F, W> {
    /// The child is sound and the closure is a function of the environment.
    open spec fn inv(&self) -> bool {
        &&& is_function1(self.f)
        &&& self.child.inv()
    }

    /// The event goes to the child, under the environment inside.
    open spec fn on_event(&self, ctx: EventCtx, event: Event, data: T, env: Env) -> (
        Self,
        EventCtx,
        T,
    ) {
        let (child, c, d) = self.child.on_event(ctx, event, data, self.scoped(env));
        (EnvScope { child, ..*self }, c, d)
    }

    /// The update goes to the child, under the environment inside.
    open spec fn on_update(&self, ctx: UpdateCtx, old_data: Option<T>, data: T, env: Env) -> (
        Self,
        UpdateCtx,
    ) {
        let (child, c) = self.child.on_update(ctx, data, self.scoped(env));
        (EnvScope { child, ..*self }, c)
    }

    /// The child is laid out under the same constraints and the environment
    /// inside, and put at the origin.
    open spec fn on_layout(&self, ctx: LayoutCtx, bc: BoxConstraints, data: T, env: Env) -> (
        Self,
        Size,
    ) {
        let (child, size) = self.child.on_layout(ctx, bc, data, self.scoped(env));
        (
            EnvScope {
                child: WidgetPod {
                    layout_rect: Some(Rect { origin: Point::spec_origin(), size }),
                    ..child
                },
                ..*self
            },
            size,
        )
    }

    /// The child is painted under the environment inside.
    open spec fn on_paint(&self, origin: Point, data: T, env: Env) -> (Self, Seq<PaintOp>) {
        let (child, ops) = self.child.on_paint(origin, data, self.scoped(env));
        (EnvScope { child, ..*self }, ops)
    }

    fn event(&mut self, ctx: &mut EventCtx, event: &Event, data: &mut T, env: &Env) {
        let inside = self.enter(env);
        self.child.event(ctx, event, data, &inside);
    }

    fn update(&mut self, ctx: &mut UpdateCtx, old_data: Option<&T>, data: &T, env: &Env) {
        let inside = self.enter(env);
        self.child.update(ctx, data, &inside);
    }

    fn layout(&mut self, ctx: &mut LayoutCtx, bc: &BoxConstraints, data: &T, env: &Env) -> (size:
        Size) {
        let inside = self.enter(env);
        let size = self.child.layout(ctx, bc, data, &inside);
        self.child.set_layout_rect(Rect::from_origin_size(Point::origin(), size));
        size
    }

    fn paint(&mut self, ctx: &mut PaintCtx, data: &T, env: &Env) {
        let inside = self.enter(env);
        self.child.paint(ctx, data, &inside);
    }

    proof fn lemma_event(&self, ctx: EventCtx, event: Event, data: T, env: Env) {
        self.child.lemma_event(ctx, event, data, self.scoped(env));
    }

    proof fn lemma_update(&self, ctx: UpdateCtx, old_data: Option<T>, data: T, env: Env) {
        self.child.lemma_update(ctx, data, self.scoped(env));
    }

    proof fn lemma_layout(&self, ctx: LayoutCtx, bc: BoxConstraints, data: T, env: Env) {
        self.child.lemma_layout(ctx, bc, data, self.scoped(env));
    }

    proof fn lemma_paint(&self, origin: Point, data: T, env: Env) {
        self.child.lemma_paint(origin, data, self.scoped(env));
    }

    proof fn lemma_update_idempotent(
        &self,
        ctx: UpdateCtx,
        again: UpdateCtx,
        old_data: Option<T>,
        data: T,
        env: Env,
    ) {
        self.child.lemma_update_idempotent(ctx, again, data, self.scoped(env));
    }

    proof fn lemma_paint_idempotent(&self, origin: Point, data: T, env: Env) {
        self.child.lemma_paint_idempotent(origin, data, self.scoped(env));
    }
}

/// What a scope binds is seen inside the scope and not beside it. Take a
/// widget that shows either a scoped child or a sibling of it. While the
/// scoped child is shown, it is painted under the environment that the
/// scope's closure makes. When the sibling is shown instead, it is painted
/// under the environment that the widget was given: nothing of the scope
/// is left in it.
pub proof fn lemma_scope_is_local<
    T: Data,
    P: Fn(&T, &Env) -> bool,
    F: Fn(Env) -> Env,
    A: Widget<T>,
    B: Widget<T>,
>(tree: Either<T, P, EnvScope<T, F, A>, B>, origin: Point, data: T, env: Env)
    ensures
        tree.current ==> ({
            let scope = tree.true_branch.inner;
            let at = scope.child.paint_origin(tree.true_branch.paint_origin(origin));
            tree.on_paint(origin, data, env).1 == scope.child.inner.on_paint(
                at,
                data,
                scope.scoped(env),
            ).1
        }),
        !tree.current ==> tree.on_paint(origin, data, env).1 == tree.false_branch.inner.on_paint(
            tree.false_branch.paint_origin(origin),
            data,
            env,
        ).1,
{
}

/// A scope whose closure binds `key` to `value` shows its child an
/// environment in which `key` is `value` and every other key is what it is
/// outside.
pub proof fn lemma_scope_binds<T: Data, F: Fn(Env) -> Env, W: Widget<T>>(
    scope: EnvScope<T, F, W>,
    env: Env,
    key: u32,
    value: Value,
    other: u32,
)
    requires
        scope.scoped(env) == env.spec_adding(key, value),
    ensures
        scope.scoped(env).spec_get(key) == Some(value),
        other != key ==> scope.scoped(env).spec_get(other) == env.spec_get(other),
{
}

} // verus!
