use mouse_scene::rational::Rat;

#[test]
fn test_add_keeps_exact_values() {
    let a = Rat::new(1, 10);
    let b = Rat::new(1, 4);
    let c = a.add(b);
    // 1/10 + 1/4 = 7/20
    assert!(c.eq_value(Rat::new(7, 20)));
}

#[test]
fn test_mul_keeps_exact_values() {
    let a = Rat::new(100, 1);
    let b = Rat::new(1, 20);
    let c = a.mul(b);
    assert!(c.eq_value(Rat::from_int(5)));
}

#[test]
fn test_eq_value_sees_through_representations() {
    assert!(Rat::new(100, 20).eq_value(Rat::from_int(5)));
    assert!(!Rat::new(100, 20).eq_value(Rat::from_int(6)));
    assert!(Rat::new(-3, 6).eq_value(Rat::new(-1, 2)));
}
