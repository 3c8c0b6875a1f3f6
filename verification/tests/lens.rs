use druid::lens::{First, Second};
use druid::{
    BoxConstraints, Button, Either, Env, Event, EventCtx, Label, LayoutCtx, Lens, LensWrap,
    PaintCtx, PaintOp, Point, Size, UpdateCtx, Widget, WidgetExt,
};

fn bc() -> BoxConstraints {
    BoxConstraints::new(Size::zero(), Size::new(200, 100))
}

fn click<W: Widget<(u32, bool)>>(w: &mut W, data: &mut (u32, bool)) {
    let env = Env::new();
    let mut layout_ctx = LayoutCtx::new(8, 16);
    w.layout(&mut layout_ctx, &bc(), data, &env);
    let mut ctx = EventCtx::new();
    w.event(&mut ctx, &Event::MouseDown(Point::new(1, 1)), data, &env);
    w.event(&mut ctx, &Event::MouseUp(Point::new(1, 1)), data, &env);
}

#[test]
fn lenses_on_a_pair() {
    let mut pair: (u32, bool) = (3, true);
    assert_eq!(First.get(&pair), 3);
    assert_eq!(Second.get(&pair), true);
    First.put(&mut pair, 8);
    assert_eq!(pair, (8, true));
    Second.put(&mut pair, false);
    assert_eq!(pair, (8, false));
}

#[test]
fn a_widget_behind_a_lens_changes_its_part_only() {
    let mut count = Button::textButton("+".to_string())
        .on_clicked(|n: &u32, _env: &Env| *n + 1)
        .lens::<(u32, bool), _>(First);
    let mut data: (u32, bool) = (0, true);
    click(&mut count, &mut data);
    assert_eq!(data, (1, true));
    let mut toggle = Button::textButton("~".to_string())
        .on_clicked(|b: &bool, _env: &Env| !*b)
        .lens::<(u32, bool), _>(Second);
    click(&mut toggle, &mut data);
    assert_eq!(data, (1, false));
}

#[test]
fn a_widget_behind_a_lens_is_updated_with_its_part() {
    let inner = Either::new(
        |n: &u32, _env: &Env| *n > 3,
        Label::new("big".to_string()),
        Label::new("small".to_string()),
    );
    let mut tree: LensWrap<u32, First, _> = LensWrap::new(inner, First);
    let env = Env::new();
    let mut ctx = UpdateCtx::new();
    tree.update(&mut ctx, None, &(5, false), &env);
    assert!(ctx.needs_inval);
    assert!(tree.child.widget().current);
    assert_eq!(tree.child.old_data, Some(5));

    // A change of the other part does not reach the child.
    let mut again = UpdateCtx::new();
    tree.update(&mut again, Some(&(5, false)), &(5, true), &env);
    assert!(!again.needs_inval);

    let mut layout_ctx = LayoutCtx::new(8, 16);
    assert_eq!(tree.layout(&mut layout_ctx, &bc(), &(5, true), &env), Size::new(24, 16));
    let mut paint_ctx = PaintCtx::new();
    tree.paint(&mut paint_ctx, &(5, true), &env);
    assert_eq!(paint_ctx.ops.len(), 1);
    assert!(matches!(&paint_ctx.ops[0], PaintOp::Text { text, .. } if text == "big"));
}
