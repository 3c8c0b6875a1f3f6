use druid::{BoxConstraints, Size, UNBOUNDED};

fn bc(min_w: u32, min_h: u32, max_w: u32, max_h: u32) -> BoxConstraints {
    BoxConstraints::new(Size::new(min_w, min_h), Size::new(max_w, max_h))
}

fn within(c: &BoxConstraints, s: Size) -> bool {
    c.min.width <= s.width
        && s.width <= c.max.width
        && c.min.height <= s.height
        && s.height <= c.max.height
}

#[test]
fn constrain_keeps_a_size_that_fits() {
    let c = bc(10, 20, 100, 200);
    assert_eq!(c.constrain(Size::new(50, 60)), Size::new(50, 60));
    assert_eq!(c.constrain(Size::new(10, 200)), Size::new(10, 200));
}

#[test]
fn constrain_clamps_each_axis_by_itself() {
    let c = bc(10, 20, 100, 200);
    assert_eq!(c.constrain(Size::new(5, 60)), Size::new(10, 60));
    assert_eq!(c.constrain(Size::new(500, 7)), Size::new(100, 20));
    assert_eq!(c.constrain(Size::zero()), Size::new(10, 20));
    assert_eq!(c.constrain(Size::new(UNBOUNDED, UNBOUNDED)), Size::new(100, 200));
}

#[test]
fn constrain_wide_takes_lengths_beyond_u32() {
    let c = bc(10, 20, 100, 200);
    assert_eq!(c.constrain_wide(u64::MAX, 0), Size::new(100, 20));
    assert_eq!(c.constrain_wide(99, 4_294_967_296), Size::new(99, 200));
    let open = bc(0, 0, UNBOUNDED, UNBOUNDED);
    assert_eq!(open.constrain_wide(4_294_967_296, 3), Size::new(UNBOUNDED, 3));
}

#[test]
fn constrained_size_lies_within() {
    let c = bc(3, 4, 5, 6);
    for w in [0u32, 3, 4, 5, 6, 1000] {
        for h in [0u32, 4, 5, 6, 7, 1000] {
            assert!(within(&c, c.constrain(Size::new(w, h))));
        }
    }
}

#[test]
fn tight_admits_one_size() {
    let t = BoxConstraints::tight(Size::new(7, 9));
    assert_eq!(t, bc(7, 9, 7, 9));
    assert_eq!(t.constrain(Size::new(100, 0)), Size::new(7, 9));
}

#[test]
fn loosen_drops_the_minimum() {
    assert_eq!(bc(10, 20, 100, 200).loosen(), bc(0, 0, 100, 200));
}

#[test]
fn shrink_takes_room_from_both_bounds() {
    assert_eq!(bc(10, 20, 100, 200).shrink(4, 6), bc(6, 14, 96, 194));
}

#[test]
fn shrink_stops_at_zero() {
    assert_eq!(bc(10, 20, 100, 200).shrink(50, 500), bc(0, 0, 50, 0));
    assert_eq!(bc(10, 20, 100, 200).shrink(u64::MAX, u64::MAX), bc(0, 0, 0, 0));
    assert_eq!(bc(10, 20, 100, 200).shrink(10, 20), bc(0, 0, 90, 180));
}

#[test]
fn shrink_leaves_an_unbounded_maximum_unbounded() {
    assert_eq!(bc(10, 0, UNBOUNDED, 50).shrink(4, 4), bc(6, 0, UNBOUNDED, 46));
    assert_eq!(bc(0, 0, UNBOUNDED, UNBOUNDED).shrink(u64::MAX, 1), bc(0, 0, UNBOUNDED, UNBOUNDED));
}

#[test]
fn bounded_axes() {
    let c = bc(0, 0, UNBOUNDED, 50);
    assert!(!c.is_width_bounded());
    assert!(c.is_height_bounded());
    assert!(bc(0, 0, UNBOUNDED - 1, 0).is_width_bounded());
}

#[test]
fn debug_check_tells_whether_the_minimum_fits_the_maximum() {
    assert!(bc(10, 20, 10, 20).debug_check());
    assert!(bc(0, 0, UNBOUNDED, UNBOUNDED).debug_check());
    let wide = BoxConstraints { min: Size::new(11, 0), max: Size::new(10, 5) };
    assert!(!wide.debug_check());
    let high = BoxConstraints { min: Size::new(0, 6), max: Size::new(10, 5) };
    assert!(!high.debug_check());
}

#[test]
fn constraints_whose_minimum_exceeds_the_maximum_clamp_to_one_of_the_two() {
    let odd = BoxConstraints { min: Size::new(11, 0), max: Size::new(10, 5) };
    assert_eq!(odd.constrain(Size::new(5, 9)), Size::new(11, 5));
    assert_eq!(odd.constrain(Size::new(20, 3)), Size::new(10, 3));
    assert_eq!(odd.shrink(1, 1), BoxConstraints { min: Size::new(10, 0), max: Size::new(9, 4) });
}
