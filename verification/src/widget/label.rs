//! A line of text.

use vstd::prelude::*;
use vstd::string::*;
use crate::constraints::BoxConstraints;
use crate::context::{EventCtx, LayoutCtx, PaintCtx, PaintOp, UpdateCtx};
use crate::env::{Color, Env};
use crate::event::Event;
use crate::geometry::{Point, Size};
use crate::widget::Widget;

verus! {

/// The environment key under which a subtree finds the colour of its text.
pub const TEXT_COLOR: u32 = 1;

/// The colour of text where the environment binds none: opaque black.
pub const DEFAULT_TEXT_RGBA: u32 = 0x0000_00ff;

/// A widget that shows one line of text. It has no children, ignores events
/// and data, and takes the colour of its text from the environment.
pub struct Label {
    pub text: String,
}

impl Label {
    /// A label that shows `text`.
    pub fn new(text: String) -> (label: Label)
        ensures
            label == (Label { text }),
    {
        Label { text }
    }

    /// The width that the text takes with the metrics of `ctx`.
    pub open spec fn text_width(&self, ctx: LayoutCtx) -> int {
        self.text@.len() * ctx.advance
    }

    /// The colour in which the text is drawn under `env`.
    pub open spec fn text_color(env: Env) -> Color {
        env.spec_get_color(TEXT_COLOR, Color { rgba: DEFAULT_TEXT_RGBA })
    }
}

impl<T> Widget<T> for Label {
    open spec fn inv(&self) -> bool {
        true
    }

    /// A label ignores events.
    open spec fn on_event(&self, ctx: EventCtx, event: Event, data: T, env: Env) -> (
        Self,
        EventCtx,
        T,
    ) {
        (*self, ctx, data)
    }

    /// A label does not depend on the data.
    open spec fn on_update(&self, ctx: UpdateCtx, old_data: Option<T>, data: T, env: Env) -> (
        Self,
        UpdateCtx,
    ) {
        (*self, ctx)
    }

    /// A label is as wide as its text and one line high, as far as the
    /// constraints allow.
    open spec fn on_layout(&self, ctx: LayoutCtx, bc: BoxConstraints, data: T, env: Env) -> (
        Self,
        Size,
    ) {
        (*self, bc.spec_constrain(self.text_width(ctx), ctx.line_height as int))
    }

    /// A label draws its text at its origin.
    open spec fn on_paint(&self, origin: Point, data: T, env: Env) -> (Self, Seq<PaintOp>) {
        (*self, seq![PaintOp::Text { at: origin, text: self.text, color: Label::text_color(env) }])
    }

    fn event(&mut self, ctx: &mut EventCtx, event: &Event, data: &mut T, env: &Env) {
    }

    fn update(&mut self, ctx: &mut UpdateCtx, old_data: Option<&T>, data: &T, env: &Env) {
    }

    fn layout(&mut self, ctx: &mut LayoutCtx, bc: &BoxConstraints, data: &T, env: &Env) -> (size:
        Size) {
        let len: usize = self.text.as_str().unicode_len();
        assert(len * ctx.advance <= 0xffff_ffff_ffff_ffff * 0xffff_ffff) by (nonlinear_arith)
            requires
                0 <= len <= 0xffff_ffff_ffff_ffff,
                0 <= ctx.advance <= 0xffff_ffff,
        ;
        let wide: u128 = len as u128 * ctx.advance as u128;
        let width: u64 = if wide > 0xffff_ffff {
            0xffff_ffff
        } else {
            wide as u64
        };
        bc.constrain_wide(width, ctx.line_height as u64)
    }

    fn paint(&mut self, ctx: &mut PaintCtx, data: &T, env: &Env) {
        let color = env.get_color(TEXT_COLOR, Color { rgba: DEFAULT_TEXT_RGBA });
        ctx.text(Point { x: 0, y: 0 }, self.text.clone(), color);
    }

    proof fn lemma_event(&self, ctx: EventCtx, event: Event, data: T, env: Env) {
    }

    proof fn lemma_update(&self, ctx: UpdateCtx, old_data: Option<T>, data: T, env: Env) {
    }

    proof fn lemma_layout(&self, ctx: LayoutCtx, bc: BoxConstraints, data: T, env: Env) {
    }

    proof fn lemma_paint(&self, origin: Point, data: T, env: Env) {
    }

    proof fn lemma_update_idempotent(
        &self,
        ctx: UpdateCtx,
        again: UpdateCtx,
        old_data: Option<T>,
        data: T,
        env: Env,
    ) {
    }

    proof fn lemma_paint_idempotent(&self, origin: Point, data: T, env: Env) {
    }
}

} // verus!
