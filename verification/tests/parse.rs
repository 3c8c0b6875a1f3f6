use druid::{
    BoxConstraints, Button, Env, Event, EventCtx, Label, LayoutCtx, PaintCtx, PaintOp, Parse,
    Point, Size, UpdateCtx, Widget, WidgetExt, WidgetPod,
};

fn bc() -> BoxConstraints {
    BoxConstraints::new(Size::zero(), Size::new(400, 100))
}

fn update<W: Widget<Option<u64>>>(w: &mut W, data: Option<u64>) -> bool {
    let mut ctx = UpdateCtx::new();
    w.update(&mut ctx, None, &data, &Env::new());
    ctx.needs_inval
}

fn event<W: Widget<Option<u64>>>(w: &mut W, e: Event, data: &mut Option<u64>) {
    let mut ctx = EventCtx::new();
    w.event(&mut ctx, &e, data, &Env::new());
}

fn click<W: Widget<Option<u64>>>(w: &mut W, data: &mut Option<u64>) {
    let mut layout_ctx = LayoutCtx::new(8, 16);
    w.layout(&mut layout_ctx, &bc(), data, &Env::new());
    event(w, Event::MouseDown(Point::new(1, 1)), data);
    event(w, Event::MouseUp(Point::new(1, 1)), data);
}

/// A widget over text that puts a `7` behind the text when it is clicked.
fn seven() -> impl Widget<String> {
    Button::textButton("7".to_string()).on_clicked(|text: &String, _env: &Env| format!("{}7", text))
}

#[test]
fn the_text_is_empty_at_first() {
    let p = Parse::new(Label::new("x".to_string()));
    assert_eq!(p.state, "");
    assert_eq!(p.widget.layout_rect, None);
    let q = WidgetExt::<String>::parse(Label::new("x".to_string()));
    assert_eq!(q.state, "");
    assert_eq!(q.widget.widget().text, "x");
}

#[test]
fn an_update_writes_the_number_into_the_text() {
    let mut p = WidgetExt::<String>::parse(Label::new("x".to_string()));
    update(&mut p, Some(42));
    assert_eq!(p.state, "42");
    assert_eq!(p.widget.old_data, Some("42".to_string()));
    update(&mut p, Some(0));
    assert_eq!(p.state, "0");
    update(&mut p, Some(u64::MAX));
    assert_eq!(p.state, "18446744073709551615");
    update(&mut p, Some(1_000_000));
    assert_eq!(p.state, "1000000");
}

#[test]
fn an_update_without_a_number_leaves_the_text() {
    let mut p = WidgetExt::<String>::parse(Label::new("x".to_string()));
    update(&mut p, Some(42));
    update(&mut p, None);
    assert_eq!(p.state, "42");
    assert_eq!(p.widget.old_data, Some("42".to_string()));
}

#[test]
fn an_event_reads_the_number_from_the_text() {
    let mut p = WidgetExt::<String>::parse(Label::new("x".to_string()));
    let mut data: Option<u64> = Some(5);
    event(&mut p, Event::KeyDown(1), &mut data);
    assert_eq!(data, None);
    update(&mut p, Some(42));
    event(&mut p, Event::KeyDown(1), &mut data);
    assert_eq!(data, Some(42));
    update(&mut p, Some(u64::MAX));
    event(&mut p, Event::KeyUp(1), &mut data);
    assert_eq!(data, Some(u64::MAX));
}

#[test]
fn the_child_edits_the_text_and_the_data_follows() {
    let mut p = seven().parse();
    let mut data: Option<u64> = None;
    click(&mut p, &mut data);
    assert_eq!(p.state, "7");
    assert_eq!(data, Some(7));
    click(&mut p, &mut data);
    assert_eq!(data, Some(77));
    update(&mut p, Some(1234));
    click(&mut p, &mut data);
    assert_eq!(p.state, "12347");
    assert_eq!(data, Some(12347));
}

#[test]
fn text_that_spells_no_number_gives_no_data() {
    let mut p = seven().parse();
    let mut data: Option<u64> = Some(1);
    update(&mut p, Some(u64::MAX));
    click(&mut p, &mut data);
    assert_eq!(p.state, "184467440737095516157");
    assert_eq!(data, None);
    update(&mut p, None);
    assert_eq!(p.state, "184467440737095516157");
}

#[test]
fn the_child_is_laid_out_and_painted_with_the_text() {
    let mut pod: WidgetPod<Option<u64>, _> = WidgetPod::new(seven().parse());
    let env = Env::new();
    let mut layout_ctx = LayoutCtx::new(8, 16);
    assert_eq!(pod.layout(&mut layout_ctx, &bc(), &None, &env), Size::new(10, 18));
    let mut ctx = PaintCtx::new();
    pod.paint(&mut ctx, &None, &env);
    assert_eq!(ctx.ops.len(), 3);
    assert!(matches!(&ctx.ops[2], PaintOp::Text { text, at, .. } if text == "7" && *at == Point::new(1, 1)));
}

#[test]
fn a_second_update_with_the_same_number_requests_nothing() {
    let mut pod: WidgetPod<Option<u64>, _> = WidgetPod::new(seven().parse());
    let env = Env::new();
    let mut first = UpdateCtx::new();
    pod.update(&mut first, &Some(3), &env);
    let mut second = UpdateCtx::new();
    pod.update(&mut second, &Some(3), &env);
    assert!(!second.needs_inval);
    assert_eq!(pod.widget().state, "3");
    let mut bare = seven().parse();
    update(&mut bare, Some(3));
    assert!(!update(&mut bare, Some(3)));
}
