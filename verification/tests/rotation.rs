use mediapipe_rotations::rotation::Rotation;
use mediapipe_rotations::scalar::NAN;

fn rotation(x: f32, y: f32, z: f32, w: f32) -> Rotation {
    Rotation { x: x.to_bits(), y: y.to_bits(), z: z.to_bits(), w: w.to_bits() }
}

#[test]
fn undefined_is_nan_in_every_component() {
    let r = Rotation::undefined();
    assert_eq!(r, Rotation { x: NAN, y: NAN, z: NAN, w: NAN });
    assert!(r.is_nan());
    assert!(!r.is_finite());
    for bits in r.to_array() {
        assert!(f32::from_bits(bits).is_nan());
    }
}

#[test]
fn finite_rotation_is_kept_by_settle() {
    let r = rotation(0.0, 0.5, -0.5, 1.0);
    assert!(r.is_finite());
    assert!(!r.is_nan());
    assert_eq!(r.settle(), r);
}

#[test]
fn half_defined_rotation_becomes_the_sentinel() {
    let half_nan = rotation(f32::NAN, 0.0, 0.0, f32::NAN);
    assert!(!half_nan.is_finite());
    assert!(!half_nan.is_nan());
    assert_eq!(half_nan.settle(), Rotation::undefined());

    let infinite = rotation(0.0, f32::INFINITY, 0.0, 1.0);
    assert!(!infinite.is_finite());
    assert_eq!(infinite.settle(), Rotation::undefined());

    let other_nan = Rotation { x: 0xffc0_0001, y: 0x7f80_0001, z: NAN, w: 0xffff_ffff };
    assert!(other_nan.is_nan());
    assert_eq!(other_nan.settle(), Rotation::undefined());
}

#[test]
fn settle_is_idempotent() {
    let samples = [
        rotation(0.0, 0.0, 0.0, 1.0),
        rotation(f32::NAN, 0.0, 0.0, 1.0),
        rotation(1.0, 2.0, 3.0, f32::NEG_INFINITY),
        Rotation::undefined(),
    ];
    for r in samples {
        let once = r.settle();
        assert_eq!(once.settle(), once);
        assert!(once.is_finite() != once.is_nan());
    }
}

#[test]
fn rotation_arrays_are_in_the_order_x_y_z_w() {
    let r = Rotation::from_array([1, 2, 3, 4]);
    assert_eq!(r, Rotation { x: 1, y: 2, z: 3, w: 4 });
    assert_eq!(r.to_array(), [1, 2, 3, 4]);
}
