use druid::{ButtonState, Data};

#[test]
fn integers_and_booleans_are_the_same_when_equal() {
    assert!(5u32.same(&5));
    assert!(!5u32.same(&6));
    assert!(7u64.same(&7));
    assert!(!7u64.same(&8));
    assert!((-3i64).same(&-3));
    assert!(!(-3i64).same(&3));
    assert!(true.same(&true));
    assert!(!true.same(&false));
}

#[test]
fn strings_are_the_same_when_their_text_is() {
    let a = "abc".to_string();
    assert!(a.same(&"abc".to_string()));
    assert!(!a.same(&"abd".to_string()));
    assert!(!a.same(&String::new()));
}

#[test]
fn pairs_are_the_same_when_both_parts_are() {
    let p: (u32, bool) = (1, true);
    assert!(p.same(&(1, true)));
    assert!(!p.same(&(2, true)));
    assert!(!p.same(&(1, false)));
}

#[test]
fn a_duplicate_is_the_same_value() {
    assert_eq!(9u32.duplicate(), 9);
    assert_eq!("xy".to_string().duplicate(), "xy");
    let p: (u64, String) = (4, "z".to_string());
    assert_eq!(p.duplicate(), p);
    assert!(p.same(&p.duplicate()));
    let s = ButtonState { clicked: true };
    assert_eq!(s.duplicate(), s);
    assert!(s.same(&s.duplicate()));
    assert!(!s.same(&ButtonState { clicked: false }));
}

#[test]
fn optional_values_are_the_same_when_both_are_absent_or_both_the_same() {
    let some: Option<u64> = Some(3);
    let none: Option<u64> = None;
    assert!(some.same(&Some(3)));
    assert!(!some.same(&Some(4)));
    assert!(!some.same(&None));
    assert!(!none.same(&Some(3)));
    assert!(none.same(&None));
    assert_eq!(some.duplicate(), Some(3));
    assert_eq!(none.duplicate(), None);
    let text: Option<String> = Some("a".to_string());
    assert!(text.same(&text.duplicate()));
}
