use std::cell::Cell;
use std::rc::Rc;

use druid::{
    BoxConstraints, Button, Either, Env, Event, EventCtx, Insets, Label, LayoutCtx, Point, Rect,
    Size, UpdateCtx, Value, Widget, WidgetExt, WidgetPod,
};

fn label(text: &str) -> Label {
    Label::new(text.to_string())
}

fn counter() -> impl Widget<u32> {
    Button::textButton("+".to_string()).on_clicked(|d: &u32, _env: &Env| *d + 1)
}

fn laid_out<W: Widget<u32>>(w: W, at: Point) -> WidgetPod<u32, W> {
    let mut pod = WidgetPod::new(w);
    let mut ctx = LayoutCtx::new(8, 16);
    let bc = BoxConstraints::new(Size::zero(), Size::new(200, 100));
    let size = pod.layout(&mut ctx, &bc, &0, &Env::new());
    pod.set_layout_rect(Rect::from_origin_size(at, size));
    pod
}

fn click<W: Widget<u32>>(pod: &mut WidgetPod<u32, W>, at: Point, data: &mut u32) {
    let mut ctx = EventCtx::new();
    pod.event(&mut ctx, &Event::MouseDown(at), data, &Env::new());
    pod.event(&mut ctx, &Event::MouseUp(at), data, &Env::new());
}

#[test]
fn a_new_pod_knows_nothing() {
    let pod: WidgetPod<u32, Label> = WidgetPod::new(label("x"));
    assert!(!pod.has_layout_rect());
    assert!(!pod.is_hot());
    assert!(!pod.needs_inval());
    assert_eq!(pod.layout_rect, None);
    assert_eq!(pod.old_data, None);
    assert_eq!(pod.env, None);
    assert_eq!(pod.widget().text, "x");
}

#[test]
fn layout_records_the_size_at_the_origin() {
    let mut pod: WidgetPod<u32, Label> = WidgetPod::new(label("abc"));
    let mut ctx = LayoutCtx::new(8, 16);
    let bc = BoxConstraints::new(Size::zero(), Size::new(200, 100));
    let size = pod.layout(&mut ctx, &bc, &0, &Env::new());
    assert_eq!(size, Size::new(24, 16));
    assert!(pod.has_layout_rect());
    assert_eq!(pod.layout_rect(), Rect::from_origin_size(Point::origin(), size));
}

#[test]
fn a_later_layout_keeps_the_origin() {
    let mut pod = laid_out(label("abc"), Point::new(7, 9));
    assert_eq!(pod.layout_rect(), Rect::from_origin_size(Point::new(7, 9), Size::new(24, 16)));
    let mut ctx = LayoutCtx::new(10, 20);
    let bc = BoxConstraints::new(Size::zero(), Size::new(200, 100));
    pod.layout(&mut ctx, &bc, &0, &Env::new());
    assert_eq!(pod.layout_rect(), Rect::from_origin_size(Point::new(7, 9), Size::new(30, 20)));
}

#[test]
fn the_pointer_is_over_the_pod_inside_its_rectangle() {
    // A text button with one character is 10 by 18: 8 by 16 of text inside a
    // border of 1.
    let mut pod = laid_out(counter(), Point::new(10, 20));
    assert_eq!(pod.layout_rect(), Rect::from_origin_size(Point::new(10, 20), Size::new(10, 18)));
    let env = Env::new();
    let mut ctx = EventCtx::new();
    let mut data: u32 = 0;
    pod.event(&mut ctx, &Event::MouseMoved(Point::new(10, 20)), &mut data, &env);
    assert!(pod.is_hot());
    pod.event(&mut ctx, &Event::MouseMoved(Point::new(20, 20)), &mut data, &env);
    assert!(!pod.is_hot());
    pod.event(&mut ctx, &Event::MouseMoved(Point::new(19, 37)), &mut data, &env);
    assert!(pod.is_hot());
    pod.event(&mut ctx, &Event::MouseMoved(Point::new(19, 38)), &mut data, &env);
    assert!(!pod.is_hot());
    pod.event(&mut ctx, &Event::MouseMoved(Point::new(9, 20)), &mut data, &env);
    assert!(!pod.is_hot());
    assert!(!ctx.is_hot());
}

#[test]
fn an_event_without_a_position_leaves_the_hot_state() {
    let mut pod = laid_out(counter(), Point::new(0, 0));
    let env = Env::new();
    let mut ctx = EventCtx::new();
    let mut data: u32 = 0;
    pod.event(&mut ctx, &Event::KeyDown(65), &mut data, &env);
    assert!(!pod.is_hot());
    pod.event(&mut ctx, &Event::MouseMoved(Point::new(1, 1)), &mut data, &env);
    pod.event(&mut ctx, &Event::KeyUp(65), &mut data, &env);
    assert!(pod.is_hot());
}

#[test]
fn before_the_first_layout_the_pointer_is_over_nothing() {
    let mut pod = WidgetPod::new(counter());
    let mut data: u32 = 0;
    click(&mut pod, Point::new(0, 0), &mut data);
    assert!(!pod.is_hot());
    assert_eq!(data, 0);
}

#[test]
fn events_reach_a_child_in_its_own_coordinates() {
    // The button of 10 by 18 lies at 20, 30 inside the padding, which lies at
    // 100, 200.
    let mut pod = laid_out(counter().padding(Insets::new(20, 30, 5, 5)), Point::new(100, 200));
    let mut data: u32 = 0;
    click(&mut pod, Point::new(110, 210), &mut data);
    assert_eq!(data, 0);
    click(&mut pod, Point::new(20, 30), &mut data);
    assert_eq!(data, 0);
    click(&mut pod, Point::new(120, 230), &mut data);
    assert_eq!(data, 1);
    click(&mut pod, Point::new(129, 247), &mut data);
    assert_eq!(data, 2);
    click(&mut pod, Point::new(130, 247), &mut data);
    assert_eq!(data, 2);
    click(&mut pod, Point::new(129, 248), &mut data);
    assert_eq!(data, 2);
}

#[test]
fn a_request_of_the_child_reaches_the_pod_and_the_context() {
    let mut pod = laid_out(counter(), Point::new(0, 0));
    let env = Env::new();
    let mut data: u32 = 0;
    let mut ctx = EventCtx::new();
    pod.event(&mut ctx, &Event::MouseMoved(Point::new(1, 1)), &mut data, &env);
    assert!(!ctx.needs_inval);
    assert!(!pod.needs_inval());
    pod.event(&mut ctx, &Event::MouseDown(Point::new(1, 1)), &mut data, &env);
    assert!(ctx.needs_inval);
    assert!(pod.needs_inval());
    assert!(!ctx.is_hot());
    assert!(!ctx.is_handled());
}

#[test]
fn an_event_keeps_what_the_context_held() {
    let mut pod = laid_out(label("x"), Point::new(0, 0));
    let mut ctx = EventCtx::new();
    ctx.invalidate();
    ctx.set_handled();
    let mut data: u32 = 0;
    pod.event(&mut ctx, &Event::MouseDown(Point::new(1, 1)), &mut data, &Env::new());
    assert!(ctx.needs_inval);
    assert!(ctx.is_handled());
    assert!(!pod.needs_inval());
}

#[test]
fn update_does_not_reach_the_widget_when_nothing_changed() {
    let calls = Rc::new(Cell::new(0u32));
    let seen = calls.clone();
    let tree = Either::new(
        move |d: &u32, _env: &Env| {
            seen.set(seen.get() + 1);
            *d > 3
        },
        label("big"),
        label("small"),
    );
    let mut pod = WidgetPod::new(tree);
    let env = Env::new();
    let mut ctx = UpdateCtx::new();

    pod.update(&mut ctx, &5, &env);
    assert_eq!(calls.get(), 1);
    assert!(ctx.needs_inval);
    assert!(pod.needs_inval());
    assert_eq!(pod.old_data, Some(5));
    assert_eq!(pod.env, Some(Env::new()));

    let mut again = UpdateCtx::new();
    pod.update(&mut again, &5, &env);
    assert_eq!(calls.get(), 1);
    assert!(!again.needs_inval);

    pod.update(&mut again, &6, &env);
    assert_eq!(calls.get(), 2);
    assert!(!again.needs_inval);
    assert_eq!(pod.old_data, Some(6));
}

#[test]
fn update_reaches_the_widget_when_the_environment_changed() {
    let calls = Rc::new(Cell::new(0u32));
    let seen = calls.clone();
    let tree = Either::new(
        move |_d: &u32, env: &Env| {
            seen.set(seen.get() + 1);
            env.get(1) == Some(Value::Bool(true))
        },
        label("on"),
        label("off"),
    );
    let mut pod = WidgetPod::new(tree);
    let mut ctx = UpdateCtx::new();
    pod.update(&mut ctx, &0, &Env::new());
    pod.update(&mut ctx, &0, &Env::new());
    assert_eq!(calls.get(), 1);
    assert!(!ctx.needs_inval);
    let on = Env::new().adding(1, Value::Bool(true));
    pod.update(&mut ctx, &0, &on);
    assert_eq!(calls.get(), 2);
    assert!(ctx.needs_inval);
    assert!(pod.widget().current);
    assert_eq!(pod.env, Some(on));
}

#[test]
fn the_widget_is_told_the_data_of_the_last_update() {
    let mut pod: WidgetPod<u32, Label> = WidgetPod::new(label("x"));
    let mut ctx = UpdateCtx::new();
    pod.update(&mut ctx, &1, &Env::new());
    pod.update(&mut ctx, &2, &Env::new());
    assert_eq!(pod.old_data, Some(2));
    assert!(!ctx.needs_inval);
    assert!(!pod.needs_inval());
}

#[test]
fn set_layout_rect_changes_the_rectangle_only() {
    let mut pod = laid_out(label("x"), Point::new(1, 2));
    pod.update(&mut UpdateCtx::new(), &4, &Env::new());
    let r = Rect::from_origin_size(Point::new(-5, 6), Size::new(7, 8));
    pod.set_layout_rect(r);
    assert_eq!(pod.layout_rect(), r);
    assert_eq!(pod.old_data, Some(4));
    assert_eq!(pod.widget().text, "x");
}
