//! The root of a widget tree, and the order of the passes in a frame.

use vstd::prelude::*;
use crate::constraints::BoxConstraints;
use crate::context::{EventCtx, LayoutCtx, PaintCtx, PaintOp, UpdateCtx};
use crate::data::Data;
use crate::env::Env;
use crate::event::Event;
use crate::geometry::{Point, Rect, Size};
use crate::pod::WidgetPod;
use crate::widget::Widget;

verus! {

/// What a frame did.
#[derive(Clone, Copy, Debug, PartialEq, Eq, Structural)]
pub struct FrameReport {
    /// Whether the tree was laid out.
    pub laid_out: bool,
    /// Whether the tree was painted.
    pub painted: bool,
}

/// The root of a widget tree, as the host holds it.
///
/// The host owns the application data and the environment and calls
/// `frame` whenever there is input, whenever the data may have changed and
/// whenever the surface is to be drawn again. A frame issues the passes in
/// their order: the event, if there is one; the update; the layout, if the
/// tree asked for it or the constraints are new; the paint, if the tree was
/// laid out or asked for it, or the host insists.
pub struct Window<T, W> {
    /// The tree.
    pub root: WidgetPod<T, W>,
    /// The constraints of the last layout; `None` before the first.
    pub constraints: Option<BoxConstraints>,
}

impl<T: Data, W: Widget<T>> Window<T, W> {
    /// The window's invariant: that of its tree.
    pub open spec fn inv(&self) -> bool {
        self.root.inv()
    }

    /// A window that has not been laid out, around `root`.
    pub open spec fn spec_new(root: W) -> Self {
        Window { root: WidgetPod::spec_new(root), constraints: None }
    }

    /// A window around `root`.
    pub fn new(root: W) -> (window: Self)
        ensures
            window == Self::spec_new(root),
            root.inv() ==> window.inv(),
    {
        Window { root: WidgetPod::new(root), constraints: None }
    }

    /// The tree and the data after the event of a frame, if there is one.
    pub open spec fn after_event(&self, event: Option<Event>, data: T, env: Env) -> (
        WidgetPod<T, W>,
        T,
    ) {
        match event {
            Some(e) => {
                let (root, c, d) = self.root.on_event(
                    EventCtx { is_hot: false, is_handled: false, needs_inval: false },
                    e,
                    data,
                    env,
                );
                (root, d)
            },
            None => (self.root, data),
        }
    }

    /// Whether a tree is to be laid out under `bc`: it asked for it, or it
    /// was last laid out under other constraints or never.
    pub open spec fn wants_layout(&self, root: WidgetPod<T, W>, bc: BoxConstraints) -> bool {
        root.needs_inval || self.constraints != Some(bc)
    }

    /// One frame: the window, the data, what was drawn and what was done.
    pub open spec fn on_frame(
        &self,
        event: Option<Event>,
        data: T,
        env: Env,
        bc: BoxConstraints,
        layout_ctx: LayoutCtx,
        origin: Point,
        force_paint: bool,
    ) -> (Self, T, Seq<PaintOp>, FrameReport) {
        let (handled, d) = self.after_event(event, data, env);
        let updated = handled.on_update(UpdateCtx { needs_inval: false }, d, env).0;
        let laid_out = self.wants_layout(updated, bc);
        let placed = if laid_out {
            let (root, size) = updated.on_layout(layout_ctx, bc, d, env);
            WidgetPod { layout_rect: Some(Rect { origin: Point::spec_origin(), size }), ..root }
        } else {
            updated
        };
        let painted = laid_out || force_paint || placed.needs_inval;
        let (root, ops) = if painted {
            placed.on_paint(origin, d, env)
        } else {
            (placed, Seq::<PaintOp>::empty())
        };
        (
            Window {
                root,
                constraints: if laid_out {
                    Some(bc)
                } else {
                    self.constraints
                },
            },
            d,
            ops,
            FrameReport { laid_out, painted },
        )
    }

    /// Runs one frame. `event` is the input, if there is any; `data` and
    /// `env` are the host's; `bc` is the room that the surface offers;
    /// `force_paint` asks for a paint whatever the tree says.
    pub fn frame(
        &mut self,
        event: Option<&Event>,
        data: &mut T,
        env: &Env,
        bc: &BoxConstraints,
        layout_ctx: &mut LayoutCtx,
        paint_ctx: &mut PaintCtx,
        force_paint: bool,
    ) -> (report: FrameReport)
        requires
            old(self).inv(),
            bc.wf(),
        ensures
            ({
                let (window, d, ops, r) = old(self).on_frame(
                    crate::widget::owned(event),
                    *old(data),
                    *env,
                    *bc,
                    *old(layout_ctx),
                    old(paint_ctx).origin,
                    force_paint,
                );
                &&& *final(self) == window
                &&& *final(data) == d
                &&& final(paint_ctx).ops@ == old(paint_ctx).ops@ + ops
                &&& report == r
            }),
            final(self).inv(),
            final(paint_ctx).origin == old(paint_ctx).origin,
            *final(layout_ctx) == *old(layout_ctx),
            report.laid_out ==> report.painted,
            report.laid_out ==> final(self).constraints == Some(*bc),
            report.laid_out ==> final(self).root.layout_rect.is_some(),
            report.laid_out ==> bc.contains(final(self).root.layout_rect.unwrap().size),
            report.painted ==> !final(self).root.needs_inval,
            force_paint ==> report.painted,
    {
        match event {
            Some(e) => {
                let mut ctx = EventCtx::new();
                self.root.event(&mut ctx, e, data, env);
            },
            None => {},
        }
        let mut ctx = UpdateCtx::new();
        self.root.update(&mut ctx, data, env);
        let known = match self.constraints {
            Some(last) => last == *bc,
            None => false,
        };
        let laid_out = self.root.needs_inval() || !known;
        if laid_out {
            let size = self.root.layout(layout_ctx, bc, data, env);
            self.root.set_layout_rect(Rect::from_origin_size(Point::origin(), size));
            self.constraints = Some(*bc);
        }
        let painted = laid_out || force_paint || self.root.needs_inval();
        if painted {
            self.root.paint(paint_ctx, data, env);
        }
        FrameReport { laid_out, painted }
    }

    /// A frame keeps the invariant.
    pub proof fn lemma_frame(
        &self,
        event: Option<Event>,
        data: T,
        env: Env,
        bc: BoxConstraints,
        layout_ctx: LayoutCtx,
        origin: Point,
        force_paint: bool,
    )
        requires
            self.inv(),
            bc.wf(),
        ensures
            self.on_frame(event, data, env, bc, layout_ctx, origin, force_paint).0.inv(),
    {
        let (handled, d) = self.after_event(event, data, env);
        if event is Some {
            self.root.lemma_event(
                EventCtx { is_hot: false, is_handled: false, needs_inval: false },
                event.unwrap(),
                data,
                env,
            );
        }
        handled.lemma_update(UpdateCtx { needs_inval: false }, d, env);
        let updated = handled.on_update(UpdateCtx { needs_inval: false }, d, env).0;
        let laid_out = self.wants_layout(updated, bc);
        if laid_out {
            updated.lemma_layout(layout_ctx, bc, d, env);
        }
        let placed = if laid_out {
            let (root, size) = updated.on_layout(layout_ctx, bc, d, env);
            WidgetPod { layout_rect: Some(Rect { origin: Point::spec_origin(), size }), ..root }
        } else {
            updated
        };
        if laid_out || force_paint || placed.needs_inval {
            placed.lemma_paint(origin, d, env);
        }
    }

    /// After any frame, a frame without input, under the same constraints
    /// and with the same data and environment, finds nothing to do: it lays
    /// nothing out, draws nothing, and leaves the window as it is.
    pub proof fn lemma_idle_frame(
        &self,
        event: Option<Event>,
        data: T,
        env: Env,
        bc: BoxConstraints,
        layout_ctx: LayoutCtx,
        origin: Point,
        force_paint: bool,
    )
        ensures
            ({
                let (window, d, ops, r) = self.on_frame(
                    event,
                    data,
                    env,
                    bc,
                    layout_ctx,
                    origin,
                    force_paint,
                );
                window.on_frame(None, d, env, bc, layout_ctx, origin, false) == (
                    window,
                    d,
                    Seq::<PaintOp>::empty(),
                    FrameReport { laid_out: false, painted: false },
                )
            }),
    {
        let (handled, d) = self.after_event(event, data, env);
        d.lemma_same_reflexive();
        let updated = handled.on_update(UpdateCtx { needs_inval: false }, d, env).0;
        assert(updated.is_current(d, env));
        let window = self.on_frame(event, data, env, bc, layout_ctx, origin, force_paint).0;
        assert(window.root.is_current(d, env));
        assert(!window.root.needs_inval);
        assert(window.constraints == Some(bc));
    }
}

} // verus!
