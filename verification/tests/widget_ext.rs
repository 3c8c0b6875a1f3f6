use druid::lens::First;
use druid::{
    Color, Container, Env, Insets, Label, PaintBrush, Size, SizedBox, UnitPoint, Value, Widget,
    WidgetExt, UNBOUNDED,
};

fn label() -> Label {
    Label::new("x".to_string())
}

fn brush() -> PaintBrush {
    PaintBrush::Gradient { from: Color::new(1), to: Color::new(2) }
}

#[test]
fn padding_wraps_in_padding() {
    let p = WidgetExt::<u32>::padding(label(), Insets::new(1, 2, 3, 4));
    assert_eq!(p.insets, Insets::new(1, 2, 3, 4));
    assert_eq!(p.child.widget().text, "x");
    assert_eq!(p.child.layout_rect, None);
    assert!(!p.child.is_hot());
    assert!(!p.child.needs_inval());
}

#[test]
fn alignment_methods_choose_anchor_and_tight_axes() {
    let c = WidgetExt::<u32>::center(label());
    assert_eq!((c.align, c.tight_width, c.tight_height), (UnitPoint::center(), false, false));
    let l = WidgetExt::<u32>::align_left(label());
    assert_eq!((l.align, l.tight_width, l.tight_height), (UnitPoint::left(), false, false));
    let r = WidgetExt::<u32>::align_right(label());
    assert_eq!((r.align, r.tight_width, r.tight_height), (UnitPoint::right(), false, false));
    let v = WidgetExt::<u32>::align_vertical(label(), UnitPoint::left());
    assert_eq!((v.align, v.tight_width, v.tight_height), (UnitPoint::left(), true, false));
    let h = WidgetExt::<u32>::align_horizontal(label(), UnitPoint::right());
    assert_eq!((h.align, h.tight_width, h.tight_height), (UnitPoint::right(), false, true));
}

#[test]
fn sizing_methods_wrap_in_a_sized_box() {
    let w = WidgetExt::<u32>::fix_width(label(), 40);
    assert_eq!((w.width, w.height), (Some(40), None));
    let h = WidgetExt::<u32>::fix_height(label(), 30);
    assert_eq!((h.width, h.height), (None, Some(30)));
    let e = WidgetExt::<u32>::expand(label());
    assert_eq!((e.width, e.height), (Some(UNBOUNDED), Some(UNBOUNDED)));
}

#[test]
fn methods_of_a_sized_box_change_it_in_place() {
    let s: SizedBox<u32, Label> = SizedBox::new(label()).fixed_width(4).fixed_height(5);
    assert_eq!((s.width, s.height), (Some(4), Some(5)));
    let e: SizedBox<u32, Label> = SizedBox::new(label()).width(4).expand();
    assert_eq!((e.width, e.height), (Some(UNBOUNDED), Some(UNBOUNDED)));
    assert_eq!(e.child.widget().text, "x");
}

#[test]
fn decoration_methods_wrap_in_a_container() {
    let b = WidgetExt::<u32>::background(label(), brush());
    assert_eq!(b.background, Some(brush()));
    assert_eq!(b.border, None);
    assert_eq!(b.size, Size::zero());
    let f = WidgetExt::<u32>::border(label(), brush(), 3);
    assert_eq!(f.background, None);
    assert_eq!(f.border.map(|s| (s.brush, s.width)), Some((brush(), 3)));
}

#[test]
fn methods_of_a_container_change_it_in_place() {
    let solid = PaintBrush::Solid(Color::new(9));
    let c: Container<u32, Label> = Container::new(label()).with_background(brush()).bordered(solid, 2);
    assert_eq!(c.background, Some(brush()));
    assert_eq!(c.border.map(|s| (s.brush, s.width)), Some((solid, 2)));
    assert_eq!(c.child.widget().text, "x");
    let d: Container<u32, Label> = Container::new(label()).background(solid).border(brush(), 1).background(brush());
    assert_eq!(d.background, Some(brush()));
    assert_eq!(d.border.map(|s| (s.brush, s.width)), Some((brush(), 1)));
}

#[test]
fn wrapping_a_container_in_another_keeps_the_first() {
    let inner: Container<u32, Label> = Container::new(label()).background(brush());
    let outer = WidgetExt::<u32>::border(inner, brush(), 1);
    assert_eq!(outer.background, None);
    assert_eq!(outer.child.widget().background, Some(brush()));
}

#[test]
fn env_scope_wraps_in_a_scope() {
    let s = WidgetExt::<u32>::env_scope(label(), |env: Env| env.adding(5, Value::Bool(true)));
    assert_eq!(s.child.widget().text, "x");
    assert_eq!(s.enter(&Env::new()).get(5), Some(Value::Bool(true)));
    assert_eq!(s.enter(&Env::new()), Env::new().adding(5, Value::Bool(true)));
}

#[test]
fn lens_wraps_in_a_lens() {
    let w = WidgetExt::<u32>::lens::<(u32, bool), First>(label(), First);
    assert_eq!(w.child.widget().text, "x");
    assert_eq!(w.child.layout_rect, None);
}

#[test]
fn chained_methods_nest_innermost_first() {
    let tree = label().padding(Insets::uniform(2)).center().fix_width(50).background(brush());
    let sized = tree.child.widget();
    let align = sized.child.widget();
    let padding = align.child.widget();
    assert_eq!(tree.background, Some(brush()));
    assert_eq!(sized.width, Some(50));
    assert_eq!(align.align, UnitPoint::center());
    assert_eq!(padding.insets, Insets::uniform(2));
    assert_eq!(padding.child.widget().text, "x");
    let mut tree = tree;
    let mut ctx = druid::LayoutCtx::new(8, 16);
    let bc = druid::BoxConstraints::new(Size::zero(), Size::new(200, 100));
    assert_eq!(Widget::<u32>::layout(&mut tree, &mut ctx, &bc, &0, &Env::new()), Size::new(50, 100));
}
