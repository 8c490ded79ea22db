#[test]
fn validate() {
    assert!(senscale::util::validate(0).is_err());
    assert!(senscale::util::validate(!0).is_ok())
}

#[test]
fn vec2_builders() {
    let v = senscale::settings::Vec2::new(1u32, 2u32);
    assert_eq!((v.x, v.y), (1, 2));
    let b = senscale::settings::Vec2::both(7u32);
    assert_eq!((b.x, b.y), (7, 7));
}
