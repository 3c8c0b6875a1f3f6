//! A button: a control that is pressed and released.

use core::marker::PhantomData;
use vstd::prelude::*;
use crate::constraints::BoxConstraints;
use crate::context::{EventCtx, LayoutCtx, PaintBrush, PaintCtx, PaintOp, UpdateCtx};
use crate::data::Data;
use crate::env::{Color, Env};
use crate::event::Event;
use crate::func::{is_function2, lemma_result2, result2};
use crate::geometry::{Point, Rect, Size};
use crate::pod::WidgetPod;
use crate::widget::container::{BorderStyle, Container};
use crate::widget::label::Label;
use crate::widget::Widget;

verus! {

/// The background of a text button that is not pressed.
pub const BUTTON_RGBA: u32 = 0xd0d0_d0ff;

/// The background of a text button while it is pressed.
pub const BUTTON_PRESSED_RGBA: u32 = 0x9090_90ff;

/// The border of a text button.
pub const BUTTON_BORDER_RGBA: u32 = 0x4040_40ff;

/// The width of the border of a text button.
pub const BUTTON_BORDER_WIDTH: u32 = 1;

/// What a button knows of itself and the application does not: whether it
/// is held down. It is the data of the widgets that make up the button's
/// face.
#[derive(Clone, Copy, Debug, PartialEq, Eq, Structural)]
pub struct ButtonState {
    pub clicked: bool,
}

impl Data for ButtonState {
    open spec fn spec_same(&self, other: &Self) -> bool {
        *self == *other
    }

    fn same(&self, other: &Self) -> (b: bool) {
        self.clicked == other.clicked
    }

    fn duplicate(&self) -> (r: Self) {
        *self
    }

    proof fn lemma_same_reflexive(&self) {
    }
}

/// That every face that `template` builds is a sound widget.
pub open spec fn builds_sound_faces<W: Widget<ButtonState>, B: Fn(&ButtonState, &Env) -> W>(
    template: B,
) -> bool {
    forall|s: ButtonState, e: Env| (#[trigger] result2(template, s, e)).inv()
}

/// What a button does to the application data when it is clicked.
pub trait Action<T> {
    /// What the action needs in order to run.
    spec fn ready(&self) -> bool;

    /// The data after the action ran on `data`.
    spec fn applied(&self, data: T, env: Env) -> T;

    /// Runs the action.
    fn apply(&self, data: &mut T, env: &Env)
        requires
            self.ready(),
        ensures
            *final(data) == self.applied(*old(data), *env),
    ;
}

/// The action of a button that has been given none: it leaves the data as
/// it is.
pub struct NoAction;

impl<T> Action<T> for NoAction {
    open spec fn ready(&self) -> bool {
        true
    }

    open spec fn applied(&self, data: T, env: Env) -> T {
        data
    }

    fn apply(&self, data: &mut T, env: &Env) {
    }
}

/// The action that calls a handler: the handler is given the data and the
/// environment, and what it returns is the new data.
pub struct OnClick<H> {
    pub handler: H,
}

impl<T, H: Fn(&T, &Env) -> T> Action<T> for OnClick<H> {
    /// The handler is a function of data and environment.
    open spec fn ready(&self) -> bool {
        is_function2(self.handler)
    }

    open spec fn applied(&self, data: T, env: Env) -> T {
        result2(self.handler, data, env)
    }

    fn apply(&self, data: &mut T, env: &Env)
        ensures
            call_ensures(self.handler, (old(data), env), *final(data)),
    {
        let next = (self.handler)(data, env);
        proof {
            lemma_result2(self.handler, *data, *env, next);
        }
        *data = next;
    }
}

/// A button.
///
/// Whether the button is held down is the button's own state, not part of
/// the application data. The button's face is a widget tree of its own,
/// over that state, which a template builds. When the state changes in the
/// event pass the button builds a new face at once and asks for a new
/// layout and paint; the paint pass only paints.
///
/// A press counts where the pointer is over the button. A release counts as
/// a click where the button was held down and the pointer is over it, and
/// the button's action then runs once. Whether the pointer is over the
/// button is what the event context says, so a button is to be kept in a
/// pod, as every child is.
pub struct Button<T, W, B, A> {
    /// Builds the face from the state.
    pub template: B,
    /// Runs when the button is clicked.
    pub action: A,
    pub state: ButtonState,
    /// The face.
    pub inner: WidgetPod<ButtonState, W>,
    pub marker: PhantomData<T>,
}

impl<T, W: Widget<ButtonState>, B: Fn(&ButtonState, &Env) -> W, A> Button<T, W, B, A> {
    /// The face that the template builds for `state` under `env`.
    pub open spec fn face(&self, state: ButtonState, env: Env) -> W {
        result2(self.template, state, env)
    }

    /// The state after the button itself has dealt with `event`: a press
    /// over the button holds it down, any release lets it go.
    pub open spec fn state_after(&self, ctx: EventCtx, event: Event) -> ButtonState {
        match event {
            Event::MouseDown(_) => ButtonState { clicked: self.state.clicked || ctx.is_hot },
            Event::MouseUp(_) => ButtonState { clicked: false },
            _ => self.state,
        }
    }

    /// Whether `event` completes a click: it is a release over the button
    /// while the button is held down.
    pub open spec fn fires(&self, ctx: EventCtx, event: Event) -> bool {
        event is MouseUp && self.state.clicked && ctx.is_hot
    }

    /// The button again, with `handler` as what a click runs.
    pub fn on_clicked<H: Fn(&T, &Env) -> T>(self, handler: H) -> (button: Button<
        T,
        W,
        B,
        OnClick<H>,
    >)
        ensures
            button == (Button {
                template: self.template,
                action: OnClick { handler },
                state: self.state,
                inner: self.inner,
                marker: PhantomData::<T>,
            }),
            is_function2(handler) && is_function2(self.template) && builds_sound_faces(
                self.template,
            ) && self.inner.inv() ==> button.inv(),
    {
        Button {
            template: self.template,
            action: OnClick { handler },
            state: self.state,
            inner: self.inner,
            marker: PhantomData,
        }
    }
}

impl<T, W: Widget<ButtonState>, B: Fn(&ButtonState, &Env) -> W> Button<T, W, B, NoAction> {
    /// A button that is not held down, whose face `template` builds, and
    /// which does nothing when clicked. The first face is built under the
    /// empty environment.
    pub fn new(template: B) -> (button: Self)
        requires
            is_function2(template),
        ensures
            button == (Button {
                template,
                action: NoAction,
                state: ButtonState { clicked: false },
                inner: WidgetPod::<ButtonState, W>::spec_new(
                    result2(template, ButtonState { clicked: false }, Env::Root),
                ),
                marker: PhantomData::<T>,
            }),
            call_ensures(template, (&ButtonState { clicked: false }, &Env::Root), button.inner.inner),
            builds_sound_faces(template) ==> button.inv(),
    {
        let state = ButtonState { clicked: false };
        let env = Env::new();
        let face = template(&state, &env);
        proof {
            lemma_result2(template, state, env, face);
        }
        Button {
            template,
            action: NoAction,
            state,
            inner: WidgetPod::new(face),
            marker: PhantomData,
        }
    }
}

/// The face of a text button: the text on a background that is darker
/// while the button is held down, inside a border.
pub open spec fn text_face(text: &String, state: ButtonState) -> Container<ButtonState, Label> {
    Container {
        background: Some(
            PaintBrush::Solid(
                Color {
                    rgba: if state.clicked {
                        BUTTON_PRESSED_RGBA
                    } else {
                        BUTTON_RGBA
                    },
                },
            ),
        ),
        border: Some(
            BorderStyle {
                brush: PaintBrush::Solid(Color { rgba: BUTTON_BORDER_RGBA }),
                width: BUTTON_BORDER_WIDTH,
            },
        ),
        size: Size { width: 0, height: 0 },
        child: WidgetPod::spec_new(Label { text: *text }),
    }
}

/// Builds the face of a text button.
pub fn build_text_face(text: &String, state: &ButtonState) -> (face: Container<ButtonState, Label>)
    ensures
        face == text_face(text, *state),
{
    let rgba: u32 = if state.clicked {
        BUTTON_PRESSED_RGBA
    } else {
        BUTTON_RGBA
    };
    Container::new(Label::new(text.clone())).border(
        PaintBrush::Solid(Color::new(BUTTON_BORDER_RGBA)),
        BUTTON_BORDER_WIDTH,
    ).background(PaintBrush::Solid(Color::new(rgba)))
}

impl<T> Button<T, Container<ButtonState, Label>, (), NoAction> {
    /// A button that shows `text`.
    #[allow(non_snake_case)]
    pub fn textButton(text: String) -> (button: Button<
        T,
        Container<ButtonState, Label>,
        impl Fn(&ButtonState, &Env) -> Container<ButtonState, Label>,
        NoAction,
    >)
        ensures
            is_function2(button.template),
            forall|s: ButtonState, e: Env, w: Container<ButtonState, Label>|
                call_ensures(button.template, (&s, &e), w) ==> w == text_face(&text, s),
            button.state == (ButtonState { clicked: false }),
            button.inner == WidgetPod::<ButtonState, Container<ButtonState, Label>>::spec_new(
                text_face(&text, ButtonState { clicked: false }),
            ),
            button.inv(),
    {
        let template = move |state: &ButtonState, env: &Env| -> (face: Container<ButtonState, Label>)
            ensures
                face == text_face(&text, *state),
            { build_text_face(&text, state) };
        assert(is_function2(template));
        Button::new(template)
    }
}

impl<T, W: Widget<ButtonState>, B: Fn(&ButtonState, &Env) -> W, A: Action<T>> Widget<T> for Button<
    T,
    W,
    B,
    A,
> {
    /// The template is a function that builds sound faces, the action can
    /// run, and the face is sound.
    open spec fn inv(&self) -> bool {
        &&& is_function2(self.template)
        &&& builds_sound_faces(self.template)
        &&& self.action.ready()
        &&& self.inner.inv()
    }

    /// The button deals with a press or a release itself, then hands the
    /// event to its face, with the state as the face's data. Where the
    /// state is then another than before the event, the face is built anew
    /// and a new layout and paint are asked for. A click runs the action
    /// on the data.
    open spec fn on_event(&self, ctx: EventCtx, event: Event, data: T, env: Env) -> (
        Self,
        EventCtx,
        T,
    ) {
        let (inner, c, state) = self.inner.on_event(ctx, event, self.state_after(ctx, event), env);
        let d = if self.fires(ctx, event) {
            self.action.applied(data, env)
        } else {
            data
        };
        if state != self.state {
            (
                Button { state, inner: WidgetPod::spec_new(self.face(state, env)), ..*self },
                EventCtx { needs_inval: true, ..c },
                d,
            )
        } else {
            (Button { state, inner, ..*self }, c, d)
        }
    }

    /// The face is updated, with the state as its data.
    open spec fn on_update(&self, ctx: UpdateCtx, old_data: Option<T>, data: T, env: Env) -> (
        Self,
        UpdateCtx,
    ) {
        let (inner, c) = self.inner.on_update(ctx, self.state, env);
        (Button { inner, ..*self }, c)
    }

    /// The face is laid out under the same constraints and put at the
    /// origin; its size is the size of the button.
    open spec fn on_layout(&self, ctx: LayoutCtx, bc: BoxConstraints, data: T, env: Env) -> (
        Self,
        Size,
    ) {
        let (inner, size) = self.inner.on_layout(ctx, bc, self.state, env);
        (
            Button {
                inner: WidgetPod {
                    layout_rect: Some(Rect { origin: Point::spec_origin(), size }),
                    ..inner
                },
                ..*self
            },
            size,
        )
    }

    /// The face is painted as it stands.
    open spec fn on_paint(&self, origin: Point, data: T, env: Env) -> (Self, Seq<PaintOp>) {
        let (inner, ops) = self.inner.on_paint(origin, self.state, env);
        (Button { inner, ..*self }, ops)
    }

    fn event(&mut self, ctx: &mut EventCtx, event: &Event, data: &mut T, env: &Env)
        ensures
            !old(self).fires(*old(ctx), *event) ==> *final(data) == *old(data),
            old(self).fires(*old(ctx), *event) ==> *final(data) == old(self).action.applied(
                *old(data),
                *env,
            ),
            final(self).state != old(self).state ==> final(ctx).needs_inval,
    {
        let before = self.state;
        let mut fire = false;
        match event {
            Event::MouseDown(_) => {
                if ctx.is_hot() {
                    self.state.clicked = true;
                }
            },
            Event::MouseUp(_) => {
                fire = self.state.clicked && ctx.is_hot();
                self.state.clicked = false;
            },
            _ => {},
        }
        self.inner.event(ctx, event, &mut self.state, env);
        if self.state.clicked != before.clicked {
            let face = (self.template)(&self.state, env);
            proof {
                lemma_result2(self.template, self.state, *env, face);
            }
            self.inner = WidgetPod::new(face);
            ctx.invalidate();
        }
        if fire {
            self.action.apply(data, env);
        }
    }

    fn update(&mut self, ctx: &mut UpdateCtx, old_data: Option<&T>, data: &T, env: &Env) {
        self.inner.update(ctx, &self.state, env);
    }

    fn layout(&mut self, ctx: &mut LayoutCtx, bc: &BoxConstraints, data: &T, env: &Env) -> (size:
        Size) {
        let size = self.inner.layout(ctx, bc, &self.state, env);
        self.inner.set_layout_rect(Rect::from_origin_size(Point::origin(), size));
        size
    }

    fn paint(&mut self, ctx: &mut PaintCtx, data: &T, env: &Env) {
        self.inner.paint(ctx, &self.state, env);
    }

    proof fn lemma_event(&self, ctx: EventCtx, event: Event, data: T, env: Env) {
        self.inner.lemma_event(ctx, event, self.state_after(ctx, event), env);
        let state = self.inner.on_event(ctx, event, self.state_after(ctx, event), env).2;
        assert(result2(self.template, state, env).inv());
    }

    proof fn lemma_update(&self, ctx: UpdateCtx, old_data: Option<T>, data: T, env: Env) {
        self.inner.lemma_update(ctx, self.state, env);
    }

    proof fn lemma_layout(&self, ctx: LayoutCtx, bc: BoxConstraints, data: T, env: Env) {
        self.inner.lemma_layout(ctx, bc, self.state, env);
    }

    proof fn lemma_paint(&self, origin: Point, data: T, env: Env) {
        self.inner.lemma_paint(origin, self.state, env);
    }

    proof fn lemma_update_idempotent(
        &self,
        ctx: UpdateCtx,
        again: UpdateCtx,
        old_data: Option<T>,
        data: T,
        env: Env,
    ) {
        self.inner.lemma_update_idempotent(ctx, again, self.state, env);
    }

    proof fn lemma_paint_idempotent(&self, origin: Point, data: T, env: Env) {
        self.inner.lemma_paint_idempotent(origin, self.state, env);
    }
}

} // verus!
