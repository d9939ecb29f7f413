use mediapipe_rotations::recipe::{frame, Recipe, Track};
use mediapipe_rotations::rotation::Rotation;
use mediapipe_rotations::scalar::NAN;

fn rotation(x: f32, y: f32, z: f32, w: f32) -> Rotation {
    Rotation { x: x.to_bits(), y: y.to_bits(), z: z.to_bits(), w: w.to_bits() }
}

#[test]
fn angle_recipes_need_a_defined_angle() {
    assert_eq!(Recipe::about_x(0.5f32.to_bits()), Recipe::AboutX(0.5f32.to_bits()));
    assert_eq!(Recipe::about_z(0.5f32.to_bits()), Recipe::AboutZ(0.5f32.to_bits()));
    assert_eq!(Recipe::about_x(f32::INFINITY.to_bits()), Recipe::AboutX(f32::INFINITY.to_bits()));
    assert_eq!(Recipe::about_x(NAN), Recipe::Undefined);
    assert_eq!(Recipe::about_z(NAN), Recipe::Undefined);
    assert_eq!(Recipe::about_z(0xffff_ffff), Recipe::Undefined);
}

#[test]
fn frame_keeps_finite_rotations_of_joints_with_a_recipe() {
    let recipes = [
        Recipe::AboutX(0),
        Recipe::Undefined,
        Recipe::Track(Track { head: 0, tail: 1, track: 4, up: 2 }),
        Recipe::AboutZ(0),
    ];
    let a = rotation(0.1, 0.2, 0.3, 0.4);
    let b = rotation(0.5, 0.5, 0.5, 0.5);
    let half = rotation(f32::NAN, 0.0, 0.0, f32::NAN);
    let out = frame(&recipes, &[a, b, half, b]);
    assert_eq!(out, vec![a, Rotation::undefined(), Rotation::undefined(), b]);
}

#[test]
fn frame_has_one_entry_for_every_recipe() {
    let recipes = [Recipe::AboutX(0); 5];
    let a = rotation(0.0, 0.0, 0.0, 1.0);
    assert_eq!(
        frame(&recipes, &[a, a]),
        vec![a, a, Rotation::undefined(), Rotation::undefined(), Rotation::undefined()]
    );
    assert_eq!(frame(&recipes[..2], &[a, a, a, a]), vec![a, a]);
    assert!(frame(&[], &[a]).is_empty());
}

#[test]
fn no_entry_of_a_frame_is_defined_in_part() {
    let recipes = [Recipe::AboutX(0); 6];
    let solved = [
        rotation(0.0, 0.0, 0.0, 1.0),
        rotation(f32::NAN, 0.0, 0.0, 1.0),
        rotation(0.0, f32::INFINITY, 0.0, 1.0),
        rotation(0.0, 0.0, f32::NEG_INFINITY, f32::NAN),
        rotation(f32::NAN, f32::NAN, f32::NAN, f32::NAN),
        rotation(-0.0, 1.0e-45, f32::MAX, f32::MIN),
    ];
    let out = frame(&recipes, &solved);
    assert_eq!(out.len(), 6);
    for r in &out {
        let parts = r.to_array().map(f32::from_bits);
        let finite = parts.iter().all(|x| x.is_finite());
        let nan = parts.iter().all(|x| x.is_nan());
        assert!(finite != nan);
    }
    assert_eq!(out[0], solved[0]);
    assert_eq!(out[5], solved[5]);
    for j in 1..5 {
        assert_eq!(out[j], Rotation::undefined());
    }
}
