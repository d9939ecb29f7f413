use mediapipe_rotations::face::{
    chin_rotation, face_rotation, mouth_corner_angles, solve, Mouth, CHIN, CHIN_GAIN, CHIN_LINE,
    CHIN_OFFSET, HEAD, LANDMARKS, LIPS, MOUTH_CORNERS, MOUTH_LEFT, MOUTH_RIGHT, ORIGIN, ROTATIONS,
};
use mediapipe_rotations::recipe::{Axis, Basis, Recipe};
use mediapipe_rotations::scalar::NAN;

fn bits(x: f32) -> u32 {
    x.to_bits()
}

fn mouth(first: f32, second: f32, lips: f32, projected: f32) -> Mouth {
    Mouth {
        first_corner: bits(first),
        second_corner: bits(second),
        lips_depth: bits(lips),
        projected_depth: bits(projected),
    }
}

fn head() -> Recipe {
    Recipe::Basis(Basis {
        tangent: Axis::Midpoint(447, 366),
        normal: Axis::Midpoint(1, 4),
        binormal: Axis::Point(152),
        unit: false,
    })
}

#[test]
fn face_tables() {
    assert_eq!(LANDMARKS, 468);
    assert_eq!(ROTATIONS, 4);
    assert_eq!((HEAD, CHIN, MOUTH_LEFT, MOUTH_RIGHT), (0, 1, 2, 3));
    assert_eq!(ORIGIN, [[447, 366], [137, 227]]);
    assert_eq!(CHIN_LINE, [2, 200, 168]);
    assert_eq!(MOUTH_CORNERS, [61, 291]);
    assert_eq!(LIPS, [0, 17]);
}

#[test]
fn chin_calibration_is_kept_bit_for_bit() {
    assert_eq!(CHIN_OFFSET, 0.314159f32.to_bits());
    assert_eq!(CHIN_GAIN, 1.15f32.to_bits());
    let measured = 0.5f32;
    let adjusted = (measured - f32::from_bits(CHIN_OFFSET)) * f32::from_bits(CHIN_GAIN);
    assert_eq!(adjusted, (0.5f32 - 0.314159) * 1.15);
}

#[test]
fn head_is_oriented_by_the_mesh() {
    let mut recipes = [Recipe::Undefined; 4];
    face_rotation(&mut recipes);
    assert_eq!(recipes, [head(), Recipe::Undefined, Recipe::Undefined, Recipe::Undefined]);
}

#[test]
fn chin_turns_about_x() {
    let mut recipes = [Recipe::Undefined; 4];
    chin_rotation(&mut recipes, bits(0.2));
    assert_eq!(
        recipes,
        [Recipe::Undefined, Recipe::AboutX(bits(0.2)), Recipe::Undefined, Recipe::Undefined]
    );
    chin_rotation(&mut recipes, NAN);
    assert_eq!(recipes, [Recipe::Undefined; 4]);
}

#[test]
fn mouth_corners_swap_sides() {
    let mut recipes = [Recipe::Undefined; 4];
    mouth_corner_angles(&mut recipes, mouth(0.25, 0.75, 0.0, 0.0));
    assert_eq!(
        recipes,
        [
            Recipe::Undefined,
            Recipe::Undefined,
            Recipe::AboutZ(bits(0.75)),
            Recipe::AboutZ(bits(0.25)),
        ]
    );
}

#[test]
fn mouth_angles_are_negated_together() {
    let mut recipes = [Recipe::Undefined; 4];
    mouth_corner_angles(&mut recipes, mouth(0.25, 0.75, -0.01, 0.02));
    assert_eq!(recipes[2], Recipe::AboutZ(bits(-0.75)));
    assert_eq!(recipes[3], Recipe::AboutZ(bits(-0.25)));

    mouth_corner_angles(&mut recipes, mouth(0.25, 0.75, 0.02, -0.01));
    assert_eq!(recipes[2], Recipe::AboutZ(bits(0.75)));
    assert_eq!(recipes[3], Recipe::AboutZ(bits(0.25)));

    mouth_corner_angles(&mut recipes, mouth(0.25, 0.75, -0.0, 0.0));
    assert_eq!(recipes[2], Recipe::AboutZ(bits(0.75)));
    assert_eq!(recipes[3], Recipe::AboutZ(bits(0.25)));

    mouth_corner_angles(&mut recipes, mouth(0.25, 0.75, f32::NAN, 1.0));
    assert_eq!(recipes[2], Recipe::AboutZ(bits(0.75)));
    assert_eq!(recipes[3], Recipe::AboutZ(bits(0.25)));
}

#[test]
fn undefined_mouth_angle_gives_no_rotation() {
    let mut recipes = [Recipe::AboutX(1); 4];
    mouth_corner_angles(&mut recipes, mouth(f32::NAN, 0.5, -1.0, 1.0));
    assert_eq!(recipes[0], Recipe::AboutX(1));
    assert_eq!(recipes[1], Recipe::AboutX(1));
    assert_eq!(recipes[2], Recipe::AboutZ(bits(-0.5)));
    assert_eq!(recipes[3], Recipe::Undefined);
}

#[test]
fn face_solve_files_all_four_joints() {
    let recipes = solve(bits(0.2), mouth(0.25, 0.75, 1.0, 2.0));
    assert_eq!(
        recipes,
        [
            head(),
            Recipe::AboutX(bits(0.2)),
            Recipe::AboutZ(bits(-0.75)),
            Recipe::AboutZ(bits(-0.25)),
        ]
    );
}
