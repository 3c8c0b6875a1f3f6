//! A widget that places its child inside the room it is given.

use vstd::prelude::*;
use crate::constraints::{reduce, BoxConstraints};
use crate::context::{EventCtx, LayoutCtx, PaintCtx, PaintOp, UpdateCtx};
use crate::data::Data;
use crate::env::Env;
use crate::event::Event;
use crate::geometry::{Point, Rect, Size, UnitPoint};
use crate::pod::WidgetPod;
use crate::widget::Widget;

verus! {

/// A widget that lets its child choose its size, takes all the room that
/// its own constraints bound, and places the child in that room. On an axis
/// that is marked tight the widget is as long as the child instead.
pub struct Align<T, W> {
    /// Where in the room left over the child is placed.
    pub align: UnitPoint,
    /// Whether the widget is only as wide as the child.
    pub tight_width: bool,
    /// Whether the widget is only as high as the child.
    pub tight_height: bool,
    pub child: WidgetPod<T, W>,
}

impl<T: Data, W: Widget<T>> Align<T, W> {
    /// `child` placed at `align`, with the given axes tight.
    pub open spec fn spec_new(
        align: UnitPoint,
        tight_width: bool,
        tight_height: bool,
        child: W,
    ) -> Self {
        Align { align, tight_width, tight_height, child: WidgetPod::spec_new(child) }
    }

    /// Places `child` at `align` in all the room there is.
    pub fn new(align: UnitPoint, child: W) -> (a: Self)
        ensures
            a == Self::spec_new(align, false, false, child),
            child.inv() ==> a.inv(),
    {
        Align { align, tight_width: false, tight_height: false, child: WidgetPod::new(child) }
    }

    /// Centers `child` on both axes.
    pub fn centered(child: W) -> (a: Self)
        ensures
            a == Self::spec_new(UnitPoint::spec_center(), false, false, child),
            child.inv() ==> a.inv(),
    {
        Align::new(UnitPoint::center(), child)
    }

    /// Puts `child` at the left edge, vertically centered.
    pub fn left(child: W) -> (a: Self)
        ensures
            a == Self::spec_new(UnitPoint::spec_left(), false, false, child),
            child.inv() ==> a.inv(),
    {
        Align::new(UnitPoint::left(), child)
    }

    /// Puts `child` at the right edge, vertically centered.
    pub fn right(child: W) -> (a: Self)
        ensures
            a == Self::spec_new(UnitPoint::spec_right(), false, false, child),
            child.inv() ==> a.inv(),
    {
        Align::new(UnitPoint::right(), child)
    }

    /// Places `child` at `align` along the horizontal axis only: the widget
    /// is as high as the child.
    pub fn horizontal(align: UnitPoint, child: W) -> (a: Self)
        ensures
            a == Self::spec_new(align, false, true, child),
            child.inv() ==> a.inv(),
    {
        Align { align, tight_width: false, tight_height: true, child: WidgetPod::new(child) }
    }

    /// Places `child` at `align` along the vertical axis only: the widget
    /// is as wide as the child.
    pub fn vertical(align: UnitPoint, child: W) -> (a: Self)
        ensures
            a == Self::spec_new(align, true, false, child),
            child.inv() ==> a.inv(),
    {
        Align { align, tight_width: true, tight_height: false, child: WidgetPod::new(child) }
    }

    /// The length that the widget asks for on one axis: the child's on a
    /// tight axis and where nothing bounds the room, else all the room.
    pub open spec fn wanted(tight: bool, bounded: bool, room: u32, child: u32) -> u32 {
        if !tight && bounded {
            room
        } else {
            child
        }
    }

    /// The size of the widget around a child of size `child`.
    pub open spec fn outer_size(&self, bc: BoxConstraints, child: Size) -> Size {
        bc.spec_constrain(
            Self::wanted(
                self.tight_width,
                bc.spec_is_width_bounded(),
                bc.max.width,
                child.width,
            ) as int,
            Self::wanted(
                self.tight_height,
                bc.spec_is_height_bounded(),
                bc.max.height,
                child.height,
            ) as int,
        )
    }

    /// The room left over around a child of size `child` in a widget of
    /// size `outer`.
    pub open spec fn extra(outer: Size, child: Size) -> Size {
        Size {
            width: reduce(outer.width as int, child.width as int) as u32,
            height: reduce(outer.height as int, child.height as int) as u32,
        }
    }
}

impl<T: Data, W: Widget<T>> Widget<T> for Align<T, W> {
    open spec fn inv(&self) -> bool {
        self.child.inv()
    }

    /// The event goes to the child.
    open spec fn on_event(&self, ctx: EventCtx, event: Event, data: T, env: Env) -> (
        Self,
        EventCtx,
        T,
    ) {
        let (child, c, d) = self.child.on_event(ctx, event, data, env);
        (Align { child, ..*self }, c, d)
    }

    /// The update goes to the child.
    open spec fn on_update(&self, ctx: UpdateCtx, old_data: Option<T>, data: T, env: Env) -> (
        Self,
        UpdateCtx,
    ) {
        let (child, c) = self.child.on_update(ctx, data, env);
        (Align { child, ..*self }, c)
    }

    /// The child is laid out with no minimum, and placed by the anchor in
    /// the room that the widget's size leaves around it.
    open spec fn on_layout(&self, ctx: LayoutCtx, bc: BoxConstraints, data: T, env: Env) -> (
        Self,
        Size,
    ) {
        let (child, size) = self.child.on_layout(ctx, bc.spec_loosen(), data, env);
        let outer = self.outer_size(bc, size);
        let origin = self.align.spec_resolve(Self::extra(outer, size));
        (
            Align { child: WidgetPod { layout_rect: Some(Rect { origin, size }), ..child }, ..*self },
            outer,
        )
    }

    /// Alignment draws nothing of its own.
    open spec fn on_paint(&self, origin: Point, data: T, env: Env) -> (Self, Seq<PaintOp>) {
        let (child, ops) = self.child.on_paint(origin, data, env);
        (Align { child, ..*self }, ops)
    }

    fn event(&mut self, ctx: &mut EventCtx, event: &Event, data: &mut T, env: &Env) {
        self.child.event(ctx, event, data, env);
    }

    fn update(&mut self, ctx: &mut UpdateCtx, old_data: Option<&T>, data: &T, env: &Env) {
        self.child.update(ctx, data, env);
    }

    fn layout(&mut self, ctx: &mut LayoutCtx, bc: &BoxConstraints, data: &T, env: &Env) -> (size:
        Size) {
        let size = self.child.layout(ctx, &bc.loosen(), data, env);
        let mut wanted = size;
        if !self.tight_width && bc.is_width_bounded() {
            wanted.width = bc.max.width;
        }
        if !self.tight_height && bc.is_height_bounded() {
            wanted.height = bc.max.height;
        }
        let outer = bc.constrain(wanted);
        let extra = Size {
            width: if outer.width > size.width {
                outer.width - size.width
            } else {
                0
            },
            height: if outer.height > size.height {
                outer.height - size.height
            } else {
                0
            },
        };
        let origin = self.align.resolve(extra);
        self.child.set_layout_rect(Rect::from_origin_size(origin, size));
        outer
    }

    fn paint(&mut self, ctx: &mut PaintCtx, data: &T, env: &Env) {
        self.child.paint(ctx, data, env);
    }

    proof fn lemma_event(&self, ctx: EventCtx, event: Event, data: T, env: Env) {
        self.child.lemma_event(ctx, event, data, env);
    }

    proof fn lemma_update(&self, ctx: UpdateCtx, old_data: Option<T>, data: T, env: Env) {
        self.child.lemma_update(ctx, data, env);
    }

    proof fn lemma_layout(&self, ctx: LayoutCtx, bc: BoxConstraints, data: T, env: Env) {
        self.child.lemma_layout(ctx, bc.spec_loosen(), data, env);
    }

    proof fn lemma_paint(&self, origin: Point, data: T, env: Env) {
        self.child.lemma_paint(origin, data, env);
    }

    proof fn lemma_update_idempotent(
        &self,
        ctx: UpdateCtx,
        again: UpdateCtx,
        old_data: Option<T>,
        data: T,
        env: Env,
    ) {
        self.child.lemma_update_idempotent(ctx, again, data, env);
    }

    proof fn lemma_paint_idempotent(&self, origin: Point, data: T, env: Env) {
        self.child.lemma_paint_idempotent(origin, data, env);
    }
}

/// The child of an alignment lies inside the alignment: its rectangle
/// starts at or after the origin and ends at or before the widget's size.
pub proof fn lemma_align_child_inside<T: Data, W: Widget<T>>(
    a: Align<T, W>,
    ctx: LayoutCtx,
    bc: BoxConstraints,
    data: T,
    env: Env,
)
    requires
        a.inv(),
        bc.wf(),
    ensures
        ({
            let (after, outer) = a.on_layout(ctx, bc, data, env);
            let rect = after.child.layout_rect.unwrap();
            &&& after.child.layout_rect.is_some()
            &&& 0 <= rect.origin.x
            &&& 0 <= rect.origin.y
            &&& rect.origin.x + rect.size.width <= outer.width
            &&& rect.origin.y + rect.size.height <= outer.height
        }),
{
    a.child.lemma_layout(ctx, bc.spec_loosen(), data, env);
}

} // verus!
