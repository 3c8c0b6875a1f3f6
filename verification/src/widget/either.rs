//! A widget that switches between two child views.

use vstd::prelude::*;
use crate::constraints::BoxConstraints;
use crate::context::{EventCtx, LayoutCtx, PaintCtx, PaintOp, UpdateCtx};
use crate::data::Data;
use crate::env::Env;
use crate::event::Event;
use crate::func::{is_function2, lemma_result2, result2};
use crate::geometry::{Point, Rect, Size};
use crate::pod::WidgetPod;
use crate::widget::Widget;

verus! {

/// A widget that shows one of two children, chosen by a predicate over the
/// data and the environment.
///
/// The predicate is evaluated once in every update, and nowhere else. The
/// update then goes on to the branch that the predicate chose, so a branch
/// that has just come into view sees the new data in the same pass. Events,
/// layout and paint go to the branch that the last update chose. The other
/// branch is kept as it is and is not called, so that it is found unchanged
/// when the predicate chooses it again.
pub struct Either<T, P, A, B> {
    /// The predicate: whether the first branch is to be shown.
    pub closure: P,
    /// The branch shown while the predicate holds.
    pub true_branch: WidgetPod<T, A>,
    /// The branch shown while it does not.
    pub false_branch: WidgetPod<T, B>,
    /// What the predicate returned in the last update; `false` before the
    /// first.
    pub current: bool,
}

impl<T: Data, P: Fn(&T, &Env) -> bool, A: Widget<T>, B: Widget<T>> Either<T, P, A, B> {
    /// A widget that switches between `true_branch` and `false_branch`,
    /// showing `false_branch` until the first update.
    pub open spec fn spec_new(closure: P, true_branch: A, false_branch: B) -> Self {
        Either {
            closure,
            true_branch: WidgetPod::spec_new(true_branch),
            false_branch: WidgetPod::spec_new(false_branch),
            current: false,
        }
    }

    /// Creates a widget that switches between two views.
    ///
    /// `closure` is evaluated on every update. While its value is `true`,
    /// `true_branch` is shown, otherwise `false_branch`.
    pub fn new(closure: P, true_branch: A, false_branch: B) -> (either: Self)
        ensures
            either == Self::spec_new(closure, true_branch, false_branch),
            is_function2(closure) && true_branch.inv() && false_branch.inv() ==> either.inv(),
    {
        Either {
            closure,
            true_branch: WidgetPod::new(true_branch),
            false_branch: WidgetPod::new(false_branch),
            current: false,
        }
    }

    /// The context of an update after the selector was evaluated to
    /// `selected`: a change of branch asks for a new layout and paint.
    pub open spec fn after_selection(&self, ctx: UpdateCtx, selected: bool) -> UpdateCtx {
        if selected != self.current {
            UpdateCtx { needs_inval: true }
        } else {
            ctx
        }
    }
}

impl<T: Data, P: Fn(&T, &Env) -> bool, A: Widget<T>, B: Widget<T>> Widget<T> for Either<
    T,
    P,
    A,
    B,
> {
    /// Both branches are sound, and the predicate is a function of data and
    /// environment.
    open spec fn inv(&self) -> bool {
        &&& is_function2(self.closure)
        &&& self.true_branch.inv()
        &&& self.false_branch.inv()
    }

    /// The event goes to the branch that is shown, and to it alone.
    open spec fn on_event(&self, ctx: EventCtx, event: Event, data: T, env: Env) -> (
        Self,
        EventCtx,
        T,
    ) {
        if self.current {
            let (branch, c, d) = self.true_branch.on_event(ctx, event, data, env);
            (Either { true_branch: branch, ..*self }, c, d)
        } else {
            let (branch, c, d) = self.false_branch.on_event(ctx, event, data, env);
            (Either { false_branch: branch, ..*self }, c, d)
        }
    }

    /// The predicate chooses the branch; a change of branch is a request
    /// for a new layout and paint; the branch chosen is then updated. The
    /// other branch is as it was.
    open spec fn on_update(&self, ctx: UpdateCtx, old_data: Option<T>, data: T, env: Env) -> (
        Self,
        UpdateCtx,
    ) {
        let selected = result2(self.closure, data, env);
        let ctx1 = self.after_selection(ctx, selected);
        if selected {
            let (branch, c) = self.true_branch.on_update(ctx1, data, env);
            (Either { true_branch: branch, current: selected, ..*self }, c)
        } else {
            let (branch, c) = self.false_branch.on_update(ctx1, data, env);
            (Either { false_branch: branch, current: selected, ..*self }, c)
        }
    }

    /// The branch that is shown is laid out under the same constraints and
    /// placed at the origin; its size is the size of the whole.
    open spec fn on_layout(&self, ctx: LayoutCtx, bc: BoxConstraints, data: T, env: Env) -> (
        Self,
        Size,
    ) {
        if self.current {
            let (branch, size) = self.true_branch.on_layout(ctx, bc, data, env);
            (
                Either {
                    true_branch: WidgetPod {
                        layout_rect: Some(Rect { origin: Point::spec_origin(), size }),
                        ..branch
                    },
                    ..*self
                },
                size,
            )
        } else {
            let (branch, size) = self.false_branch.on_layout(ctx, bc, data, env);
            (
                Either {
                    false_branch: WidgetPod {
                        layout_rect: Some(Rect { origin: Point::spec_origin(), size }),
                        ..branch
                    },
                    ..*self
                },
                size,
            )
        }
    }

    /// The branch that is shown is painted, and it alone.
    open spec fn on_paint(&self, origin: Point, data: T, env: Env) -> (Self, Seq<PaintOp>) {
        if self.current {
            let (branch, ops) = self.true_branch.on_paint(origin, data, env);
            (Either { true_branch: branch, ..*self }, ops)
        } else {
            let (branch, ops) = self.false_branch.on_paint(origin, data, env);
            (Either { false_branch: branch, ..*self }, ops)
        }
    }

    fn event(&mut self, ctx: &mut EventCtx, event: &Event, data: &mut T, env: &Env)
        ensures
            final(self).current == old(self).current,
            old(self).current ==> final(self).false_branch == old(self).false_branch,
            !old(self).current ==> final(self).true_branch == old(self).true_branch,
    {
        if self.current {
            self.true_branch.event(ctx, event, data, env)
        } else {
            self.false_branch.event(ctx, event, data, env)
        }
    }

    fn update(&mut self, ctx: &mut UpdateCtx, old_data: Option<&T>, data: &T, env: &Env)
        ensures
            call_ensures(old(self).closure, (data, env), final(self).current),
            final(self).current == result2(old(self).closure, *data, *env),
            final(self).current ==> final(self).false_branch == old(self).false_branch,
            !final(self).current ==> final(self).true_branch == old(self).true_branch,
            final(self).current != old(self).current ==> final(ctx).needs_inval,
    {
        let current = (self.closure)(data, env);
        proof {
            lemma_result2(self.closure, *data, *env, current);
        }
        if current != self.current {
            self.current = current;
            ctx.invalidate();
        }
        if self.current {
            self.true_branch.update(ctx, data, env);
        } else {
            self.false_branch.update(ctx, data, env);
        }
    }

    fn layout(&mut self, ctx: &mut LayoutCtx, bc: &BoxConstraints, data: &T, env: &Env) -> (size:
        Size)
        ensures
            final(self).current == old(self).current,
            old(self).current ==> final(self).false_branch == old(self).false_branch
                && final(self).true_branch.layout_rect == Some(
                Rect { origin: Point::spec_origin(), size },
            ),
            !old(self).current ==> final(self).true_branch == old(self).true_branch
                && final(self).false_branch.layout_rect == Some(
                Rect { origin: Point::spec_origin(), size },
            ),
    {
        if self.current {
            let size = self.true_branch.layout(ctx, bc, data, env);
            self.true_branch.set_layout_rect(Rect::from_origin_size(Point::origin(), size));
            size
        } else {
            let size = self.false_branch.layout(ctx, bc, data, env);
            self.false_branch.set_layout_rect(Rect::from_origin_size(Point::origin(), size));
            size
        }
    }

    fn paint(&mut self, ctx: &mut PaintCtx, data: &T, env: &Env)
        ensures
            final(self).current == old(self).current,
            old(self).current ==> final(self).false_branch == old(self).false_branch,
            !old(self).current ==> final(self).true_branch == old(self).true_branch,
    {
        if self.current {
            self.true_branch.paint(ctx, data, env);
        } else {
            self.false_branch.paint(ctx, data, env);
        }
    }

    proof fn lemma_event(&self, ctx: EventCtx, event: Event, data: T, env: Env) {
        if self.current {
            self.true_branch.lemma_event(ctx, event, data, env);
        } else {
            self.false_branch.lemma_event(ctx, event, data, env);
        }
    }

    proof fn lemma_update(&self, ctx: UpdateCtx, old_data: Option<T>, data: T, env: Env) {
        let selected = result2(self.closure, data, env);
        let ctx1 = self.after_selection(ctx, selected);
        if selected {
            self.true_branch.lemma_update(ctx1, data, env);
        } else {
            self.false_branch.lemma_update(ctx1, data, env);
        }
    }

    proof fn lemma_layout(&self, ctx: LayoutCtx, bc: BoxConstraints, data: T, env: Env) {
        if self.current {
            self.true_branch.lemma_layout(ctx, bc, data, env);
        } else {
            self.false_branch.lemma_layout(ctx, bc, data, env);
        }
    }

    proof fn lemma_paint(&self, origin: Point, data: T, env: Env) {
        if self.current {
            self.true_branch.lemma_paint(origin, data, env);
        } else {
            self.false_branch.lemma_paint(origin, data, env);
        }
    }

    proof fn lemma_update_idempotent(
        &self,
        ctx: UpdateCtx,
        again: UpdateCtx,
        old_data: Option<T>,
        data: T,
        env: Env,
    ) {
        let selected = result2(self.closure, data, env);
        let ctx1 = self.after_selection(ctx, selected);
        if selected {
            self.true_branch.lemma_update_idempotent(ctx1, again, data, env);
        } else {
            self.false_branch.lemma_update_idempotent(ctx1, again, data, env);
        }
    }

    proof fn lemma_paint_idempotent(&self, origin: Point, data: T, env: Env) {
        if self.current {
            self.true_branch.lemma_paint_idempotent(origin, data, env);
        } else {
            self.false_branch.lemma_paint_idempotent(origin, data, env);
        }
    }
}

/// After an update the branch shown is the one that the predicate chooses
/// for the new data and environment, and the branch not shown is as it was
/// before the update.
pub proof fn lemma_update_selects<T: Data, P: Fn(&T, &Env) -> bool, A: Widget<T>, B: Widget<T>>(
    either: Either<T, P, A, B>,
    ctx: UpdateCtx,
    old_data: Option<T>,
    data: T,
    env: Env,
)
    ensures
        ({
            let after = either.on_update(ctx, old_data, data, env).0;
            &&& after.current == result2(either.closure, data, env)
            &&& after.current ==> after.false_branch == either.false_branch
            &&& !after.current ==> after.true_branch == either.true_branch
        }),
{
}

/// Events, layout and paint leave the choice of branch and the branch that
/// is not shown as they are. Together with `lemma_update_selects`: from the
/// update that hides a branch to the update that shows it again, nothing
/// changes the branch.
pub proof fn lemma_hidden_branch_is_kept<
    T: Data,
    P: Fn(&T, &Env) -> bool,
    A: Widget<T>,
    B: Widget<T>,
>(
    either: Either<T, P, A, B>,
    event_ctx: EventCtx,
    event: Event,
    layout_ctx: LayoutCtx,
    bc: BoxConstraints,
    origin: Point,
    data: T,
    env: Env,
)
    ensures
        ({
            let handled = either.on_event(event_ctx, event, data, env).0;
            let laid_out = either.on_layout(layout_ctx, bc, data, env).0;
            let painted = either.on_paint(origin, data, env).0;
            &&& handled.current == either.current
            &&& laid_out.current == either.current
            &&& painted.current == either.current
            &&& either.current ==> handled.false_branch == either.false_branch
                && laid_out.false_branch == either.false_branch && painted.false_branch
                == either.false_branch
            &&& !either.current ==> handled.true_branch == either.true_branch
                && laid_out.true_branch == either.true_branch && painted.true_branch
                == either.true_branch
        }),
{
}

} // verus!
