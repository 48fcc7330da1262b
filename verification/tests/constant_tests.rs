use cuda_intrinsics::constant::Constant;

#[test]
fn read_returns_stored_value() {
    let c = Constant::new([1.0f32, 2.0, 3.0, 4.0]);
    assert_eq!(c.get(), [1.0, 2.0, 3.0, 4.0]);
    assert_eq!(c.get(), c.get());
}

#[test]
fn read_after_host_update() {
    let mut c = Constant::new(0.0f32);
    c.set(3.0);
    assert_eq!(c.get(), 3.0);
    let scaled: Vec<f32> = (0..8).map(|i| i as f32 * c.get()).collect();
    assert_eq!(scaled, vec![0.0, 3.0, 6.0, 9.0, 12.0, 15.0, 18.0, 21.0]);
}
