use druid::widget::button::{
    BUTTON_BORDER_RGBA, BUTTON_BORDER_WIDTH, BUTTON_PRESSED_RGBA, BUTTON_RGBA,
};
use druid::widget::label::DEFAULT_TEXT_RGBA;
use druid::{
    BoxConstraints, Button, ButtonState, Color, Env, Event, EventCtx, Label, LayoutCtx, PaintBrush,
    PaintCtx, PaintOp, Point, Rect, Size, UpdateCtx, Widget, WidgetPod,
};

fn bc() -> BoxConstraints {
    BoxConstraints::new(Size::zero(), Size::new(200, 100))
}

/// A counting button of 18 by 18 in a pod at 10, 10.
fn counter() -> WidgetPod<u32, impl Widget<u32>> {
    let button = Button::textButton("ok".to_string())
        .on_clicked(|count: &u32, _env: &Env| *count + 1);
    let mut root = WidgetPod::new(button);
    let mut layout_ctx = LayoutCtx::new(8, 16);
    let size = root.layout(&mut layout_ctx, &bc(), &0, &Env::new());
    assert_eq!(size, Size::new(18, 18));
    root.set_layout_rect(Rect::from_origin_size(Point::new(10, 10), size));
    root
}

fn send<W: Widget<u32>>(root: &mut WidgetPod<u32, W>, event: Event, data: &mut u32) -> EventCtx {
    let mut ctx = EventCtx::new();
    root.event(&mut ctx, &event, data, &Env::new());
    ctx
}

fn inside() -> Point {
    Point::new(12, 12)
}

fn outside() -> Point {
    Point::new(40, 12)
}

#[test]
fn press_and_release_inside_invokes_callback_once() {
    let mut root = counter();
    let mut data: u32 = 0;
    send(&mut root, Event::MouseDown(inside()), &mut data);
    assert_eq!(data, 0);
    send(&mut root, Event::MouseUp(Point::new(27, 27)), &mut data);
    assert_eq!(data, 1);
}

#[test]
fn press_and_release_outside_invokes_callback_never() {
    let mut root = counter();
    let mut data: u32 = 0;
    send(&mut root, Event::MouseDown(outside()), &mut data);
    send(&mut root, Event::MouseUp(outside()), &mut data);
    assert_eq!(data, 0);
}

#[test]
fn press_inside_and_release_outside_invokes_callback_never() {
    let mut root = counter();
    let mut data: u32 = 0;
    send(&mut root, Event::MouseDown(inside()), &mut data);
    send(&mut root, Event::MouseMoved(outside()), &mut data);
    send(&mut root, Event::MouseUp(outside()), &mut data);
    assert_eq!(data, 0);
    send(&mut root, Event::MouseUp(inside()), &mut data);
    assert_eq!(data, 0);
}

#[test]
fn press_outside_and_release_inside_invokes_callback_never() {
    let mut root = counter();
    let mut data: u32 = 0;
    send(&mut root, Event::MouseDown(outside()), &mut data);
    send(&mut root, Event::MouseUp(inside()), &mut data);
    assert_eq!(data, 0);
}

#[test]
fn every_click_invokes_the_callback_once() {
    let mut root = counter();
    let mut data: u32 = 0;
    for expected in 1..=3u32 {
        send(&mut root, Event::MouseDown(inside()), &mut data);
        send(&mut root, Event::MouseUp(inside()), &mut data);
        assert_eq!(data, expected);
    }
    send(&mut root, Event::MouseUp(inside()), &mut data);
    assert_eq!(data, 3);
}

#[test]
fn other_events_do_not_click() {
    let mut root = counter();
    let mut data: u32 = 0;
    send(&mut root, Event::MouseMoved(inside()), &mut data);
    send(&mut root, Event::KeyDown(13), &mut data);
    send(&mut root, Event::KeyUp(13), &mut data);
    assert_eq!(data, 0);
}

#[test]
fn the_callback_sees_data_and_environment() {
    let button = Button::textButton("ok".to_string()).on_clicked(|d: &u32, env: &Env| {
        match env.get(4) {
            Some(druid::Value::Unsigned(step)) => *d + (step as u32),
            _ => *d * 2,
        }
    });
    let mut root = WidgetPod::new(button);
    let mut layout_ctx = LayoutCtx::new(8, 16);
    root.layout(&mut layout_ctx, &bc(), &0, &Env::new());
    let mut data: u32 = 5;
    let env = Env::new().adding(4, druid::Value::Unsigned(10));
    let mut ctx = EventCtx::new();
    root.event(&mut ctx, &Event::MouseDown(Point::new(1, 1)), &mut data, &env);
    root.event(&mut ctx, &Event::MouseUp(Point::new(1, 1)), &mut data, &env);
    assert_eq!(data, 15);
    root.event(&mut ctx, &Event::MouseDown(Point::new(1, 1)), &mut data, &Env::new());
    root.event(&mut ctx, &Event::MouseUp(Point::new(1, 1)), &mut data, &Env::new());
    assert_eq!(data, 30);
}

#[test]
fn a_button_without_a_callback_leaves_the_data() {
    let mut root: WidgetPod<u32, _> = WidgetPod::new(Button::textButton("ok".to_string()));
    let mut layout_ctx = LayoutCtx::new(8, 16);
    root.layout(&mut layout_ctx, &bc(), &0, &Env::new());
    let mut data: u32 = 7;
    let down = send(&mut root, Event::MouseDown(Point::new(1, 1)), &mut data);
    assert!(root.widget().state.clicked);
    assert!(down.needs_inval);
    send(&mut root, Event::MouseUp(Point::new(1, 1)), &mut data);
    assert!(!root.widget().state.clicked);
    assert_eq!(data, 7);
}

#[test]
fn the_button_is_held_down_between_press_and_release() {
    let button = Button::textButton("ok".to_string()).on_clicked(|d: &u32, _env: &Env| *d + 1);
    assert_eq!(button.state, ButtonState { clicked: false });
    let mut root = WidgetPod::new(button);
    let mut layout_ctx = LayoutCtx::new(8, 16);
    root.layout(&mut layout_ctx, &bc(), &0, &Env::new());
    let mut data: u32 = 0;
    send(&mut root, Event::MouseDown(Point::new(1, 1)), &mut data);
    assert!(root.widget().state.clicked);
    send(&mut root, Event::MouseMoved(Point::new(90, 90)), &mut data);
    assert!(root.widget().state.clicked);
    send(&mut root, Event::MouseUp(Point::new(90, 90)), &mut data);
    assert!(!root.widget().state.clicked);
}

#[test]
fn a_change_of_state_requests_invalidation() {
    let mut root = counter();
    let mut data: u32 = 0;
    assert!(!send(&mut root, Event::MouseMoved(inside()), &mut data).needs_inval);
    assert!(!send(&mut root, Event::MouseDown(outside()), &mut data).needs_inval);
    assert!(!send(&mut root, Event::MouseUp(inside()), &mut data).needs_inval);
    assert!(send(&mut root, Event::MouseDown(inside()), &mut data).needs_inval);
    assert!(!send(&mut root, Event::MouseDown(inside()), &mut data).needs_inval);
    assert!(send(&mut root, Event::MouseUp(outside()), &mut data).needs_inval);
    assert!(!send(&mut root, Event::MouseUp(outside()), &mut data).needs_inval);
}

fn face(root: &mut WidgetPod<u32, impl Widget<u32>>) -> Vec<PaintOp> {
    let mut layout_ctx = LayoutCtx::new(8, 16);
    root.layout(&mut layout_ctx, &bc(), &0, &Env::new());
    let mut ctx = PaintCtx::new();
    root.paint(&mut ctx, &0, &Env::new());
    ctx.ops
}

fn text_face(rgba: u32) -> Vec<PaintOp> {
    let panel = Rect::from_origin_size(Point::new(10, 10), Size::new(18, 18));
    vec![
        PaintOp::Fill { rect: panel, brush: PaintBrush::Solid(Color::new(rgba)) },
        PaintOp::Stroke {
            rect: panel,
            brush: PaintBrush::Solid(Color::new(BUTTON_BORDER_RGBA)),
            width: BUTTON_BORDER_WIDTH,
        },
        PaintOp::Text {
            at: Point::new(11, 11),
            text: "ok".to_string(),
            color: Color::new(DEFAULT_TEXT_RGBA),
        },
    ]
}

#[test]
fn the_face_of_a_text_button_follows_the_state() {
    let mut root = counter();
    let mut data: u32 = 0;
    assert_eq!(face(&mut root), text_face(BUTTON_RGBA));
    send(&mut root, Event::MouseDown(inside()), &mut data);
    assert_eq!(face(&mut root), text_face(BUTTON_PRESSED_RGBA));
    send(&mut root, Event::MouseUp(inside()), &mut data);
    assert_eq!(face(&mut root), text_face(BUTTON_RGBA));
    assert_ne!(BUTTON_RGBA, BUTTON_PRESSED_RGBA);
}

#[test]
fn a_new_face_has_not_been_laid_out() {
    let button = Button::textButton("ok".to_string()).on_clicked(|d: &u32, _env: &Env| *d + 1);
    let mut root = WidgetPod::new(button);
    let mut layout_ctx = LayoutCtx::new(8, 16);
    root.layout(&mut layout_ctx, &bc(), &0, &Env::new());
    let mut data: u32 = 0;
    assert!(root.widget().inner.has_layout_rect());
    assert_eq!(root.widget().inner.widget().size, Size::new(18, 18));
    send(&mut root, Event::MouseMoved(Point::new(1, 1)), &mut data);
    assert!(root.widget().inner.has_layout_rect());
    send(&mut root, Event::MouseDown(Point::new(1, 1)), &mut data);
    assert!(!root.widget().inner.has_layout_rect());
    assert_eq!(root.widget().inner.widget().size, Size::zero());
    assert!(root.has_layout_rect());
}

#[test]
fn a_template_builds_the_face() {
    let button = Button::new(|state: &ButtonState, _env: &Env| {
        Label::new(if state.clicked { "down".to_string() } else { "up".to_string() })
    })
    .on_clicked(|d: &u32, _env: &Env| *d + 1);
    assert_eq!(button.inner.widget().text, "up");
    assert_eq!(button.inner.layout_rect, None);
    let mut root = WidgetPod::new(button);
    let mut layout_ctx = LayoutCtx::new(8, 16);
    assert_eq!(root.layout(&mut layout_ctx, &bc(), &0, &Env::new()), Size::new(16, 16));
    let mut data: u32 = 0;
    send(&mut root, Event::MouseDown(Point::new(1, 1)), &mut data);
    assert_eq!(root.widget().inner.widget().text, "down");
    assert_eq!(root.widget().inner.layout_rect, None);
    assert_eq!(root.layout(&mut layout_ctx, &bc(), &0, &Env::new()), Size::new(32, 16));
    send(&mut root, Event::MouseUp(Point::new(1, 1)), &mut data);
    assert_eq!(root.widget().inner.widget().text, "up");
    assert_eq!(data, 1);
}

#[test]
fn a_template_sees_the_environment_of_the_event() {
    let button = Button::new(|_state: &ButtonState, env: &Env| {
        Label::new(match env.get(2) {
            Some(_) => "bound".to_string(),
            None => "free".to_string(),
        })
    });
    assert_eq!(button.inner.widget().text, "free");
    let mut root: WidgetPod<u32, _> = WidgetPod::new(button);
    let mut layout_ctx = LayoutCtx::new(8, 16);
    root.layout(&mut layout_ctx, &bc(), &0, &Env::new());
    let mut data: u32 = 0;
    let mut ctx = EventCtx::new();
    let env = Env::new().adding(2, druid::Value::Bool(true));
    root.event(&mut ctx, &Event::MouseDown(Point::new(1, 1)), &mut data, &env);
    assert_eq!(root.widget().inner.widget().text, "bound");
}

#[test]
fn the_face_is_laid_out_and_updated_with_the_state() {
    let mut button = Button::textButton("ok".to_string()).on_clicked(|d: &u32, _env: &Env| *d + 1);
    let mut layout_ctx = LayoutCtx::new(8, 16);
    let size = button.layout(&mut layout_ctx, &bc(), &0, &Env::new());
    assert_eq!(size, Size::new(18, 18));
    assert_eq!(button.inner.layout_rect, Some(Rect::from_origin_size(Point::origin(), size)));
    let mut ctx = UpdateCtx::new();
    button.update(&mut ctx, None, &3, &Env::new());
    assert!(!ctx.needs_inval);
    assert_eq!(button.inner.old_data, Some(ButtonState { clicked: false }));
}

#[test]
fn a_bare_button_goes_by_the_hot_state_of_its_context() {
    let mut button = Button::textButton("ok".to_string()).on_clicked(|d: &u32, _env: &Env| *d + 1);
    let mut data: u32 = 0;
    let env = Env::new();
    let mut cold = EventCtx::new();
    button.event(&mut cold, &Event::MouseDown(Point::new(1, 1)), &mut data, &env);
    assert!(!button.state.clicked);
    let mut hot = EventCtx::new();
    hot.is_hot = true;
    button.event(&mut hot, &Event::MouseDown(Point::new(500, 500)), &mut data, &env);
    assert!(button.state.clicked);
    assert!(hot.is_hot());
    button.event(&mut hot, &Event::MouseUp(Point::new(500, 500)), &mut data, &env);
    assert_eq!(data, 1);
}
