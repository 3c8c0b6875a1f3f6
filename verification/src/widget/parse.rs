//! A widget that shows a number as text and reads it back.

use vstd::prelude::*;
use crate::constraints::BoxConstraints;
use crate::context::{EventCtx, LayoutCtx, PaintCtx, PaintOp, UpdateCtx};
use crate::decimal::{decimal, parse_u64, show_u64, shown_u64, spec_parse_u64};
use crate::env::Env;
use crate::event::Event;
use crate::geometry::{Point, Rect, Size};
use crate::pod::WidgetPod;
use crate::widget::Widget;

verus! {

/// A widget over an optional number, made of a widget over text.
///
/// The widget keeps the text. The child edits it in the event pass, and the
/// data is then what the text spells: a number, or nothing where the text
/// spells none. An update that brings a number writes it into the text; an
/// update that brings nothing leaves the text alone, so that text which
/// spells no number yet is not taken away from under the one who types it.
pub struct Parse<W> {
    pub widget: WidgetPod<String, W>,
    /// The text.
    pub state: String,
}

impl<W: Widget<String>> Parse<W> {
    /// Wraps `widget`, a widget over text, into a widget over the number
    /// that the text spells. The text is empty at first.
    pub fn new(widget: W) -> (parse: Self)
        ensures
            parse.widget == WidgetPod::<String, W>::spec_new(widget),
            parse.state@ == Seq::<char>::empty(),
            widget.inv() ==> parse.inv(),
    {
        Parse { widget: WidgetPod::new(widget), state: String::new() }
    }
}

impl<W: Widget<String>> Widget<Option<u64>> for Parse<W> {
    open spec fn inv(&self) -> bool {
        self.widget.inv()
    }

    /// The child handles the event on the text; the data is then what the
    /// text spells.
    open spec fn on_event(&self, ctx: EventCtx, event: Event, data: Option<u64>, env: Env) -> (
        Self,
        EventCtx,
        Option<u64>,
    ) {
        let (widget, c, state) = self.widget.on_event(ctx, event, self.state, env);
        (Parse { widget, state }, c, spec_parse_u64(state@))
    }

    /// A number is written into the text and the child is updated with it;
    /// no number changes nothing.
    open spec fn on_update(
        &self,
        ctx: UpdateCtx,
        old_data: Option<Option<u64>>,
        data: Option<u64>,
        env: Env,
    ) -> (Self, UpdateCtx) {
        match data {
            Some(v) => {
                let (widget, c) = self.widget.on_update(ctx, shown_u64(v), env);
                (Parse { widget, state: shown_u64(v) }, c)
            },
            None => (*self, ctx),
        }
    }

    /// The child is laid out under the same constraints, with the text as
    /// its data, and put at the origin.
    open spec fn on_layout(
        &self,
        ctx: LayoutCtx,
        bc: BoxConstraints,
        data: Option<u64>,
        env: Env,
    ) -> (Self, Size) {
        let (widget, size) = self.widget.on_layout(ctx, bc, self.state, env);
        (
            Parse {
                widget: WidgetPod {
                    layout_rect: Some(Rect { origin: Point::spec_origin(), size }),
                    ..widget
                },
                ..*self
            },
            size,
        )
    }

    /// The child is painted with the text as its data.
    open spec fn on_paint(&self, origin: Point, data: Option<u64>, env: Env) -> (
        Self,
        Seq<PaintOp>,
    ) {
        let (widget, ops) = self.widget.on_paint(origin, self.state, env);
        (Parse { widget, ..*self }, ops)
    }

    fn event(&mut self, ctx: &mut EventCtx, event: &Event, data: &mut Option<u64>, env: &Env)
        ensures
            *final(data) == spec_parse_u64(final(self).state@),
    {
        self.widget.event(ctx, event, &mut self.state, env);
        *data = parse_u64(self.state.as_str());
    }

    fn update(
        &mut self,
        ctx: &mut UpdateCtx,
        old_data: Option<&Option<u64>>,
        data: &Option<u64>,
        env: &Env,
    )
        ensures
            data matches Some(v) ==> final(self).state@ == decimal(v as nat),
            *data is None ==> *final(self) == *old(self),
    {
        match data {
            Some(v) => {
                self.state = show_u64(*v);
                self.widget.update(ctx, &self.state, env);
            },
            None => {},
        }
    }

    fn layout(
        &mut self,
        ctx: &mut LayoutCtx,
        bc: &BoxConstraints,
        data: &Option<u64>,
        env: &Env,
    ) -> (size: Size) {
        let size = self.widget.layout(ctx, bc, &self.state, env);
        self.widget.set_layout_rect(Rect::from_origin_size(Point::origin(), size));
        size
    }

    fn paint(&mut self, ctx: &mut PaintCtx, data: &Option<u64>, env: &Env) {
        self.widget.paint(ctx, &self.state, env);
    }

    proof fn lemma_event(&self, ctx: EventCtx, event: Event, data: Option<u64>, env: Env) {
        self.widget.lemma_event(ctx, event, self.state, env);
    }

    proof fn lemma_update(
        &self,
        ctx: UpdateCtx,
        old_data: Option<Option<u64>>,
        data: Option<u64>,
        env: Env,
    ) {
        if let Some(v) = data {
            self.widget.lemma_update(ctx, shown_u64(v), env);
        }
    }

    proof fn lemma_layout(&self, ctx: LayoutCtx, bc: BoxConstraints, data: Option<u64>, env: Env) {
        self.widget.lemma_layout(ctx, bc, self.state, env);
    }

    proof fn lemma_paint(&self, origin: Point, data: Option<u64>, env: Env) {
        self.widget.lemma_paint(origin, self.state, env);
    }

    proof fn lemma_update_idempotent(
        &self,
        ctx: UpdateCtx,
        again: UpdateCtx,
        old_data: Option<Option<u64>>,
        data: Option<u64>,
        env: Env,
    ) {
        if let Some(v) = data {
            self.widget.lemma_update_idempotent(ctx, again, shown_u64(v), env);
        }
    }

    proof fn lemma_paint_idempotent(&self, origin: Point, data: Option<u64>, env: Env) {
        self.widget.lemma_paint_idempotent(origin, self.state, env);
    }
}

} // verus!
