//! The face solver: 468 landmarks in, one recipe for each of 4 joints out.
//!
//! The joints are the head, the chin and the two corners of the mouth. The head's
//! orientation is fixed by the numbering of the mesh. The other three turn by angles
//! that the geometry kernel measures; this module says where they are measured, gives
//! the mouth angles their sign and files all three.

use crate::recipe::{Axis, Basis, Recipe};
use crate::scalar;
use vstd::prelude::*;

verus! {

/// Number of landmarks of the face mesh.
pub const LANDMARKS: usize = 468;

/// Number of rotations in a frame.
pub const ROTATIONS: usize = 4;

/// The joint of the whole head.
pub const HEAD: usize = 0;

/// The joint of the chin.
pub const CHIN: usize = 1;

/// The joint of the left corner of the mouth.
pub const MOUTH_LEFT: usize = 2;

/// The joint of the right corner of the mouth.
pub const MOUTH_RIGHT: usize = 3;

/// Two pairs of landmarks on opposite sides of the face. The origin is the midpoint of
/// the midpoints of the two pairs.
pub const ORIGIN: [[usize; 2]; 2] = [[447, 366], [137, 227]];

/// Landmarks of the chin measurement: the nose, the chin, and the point between the
/// brows from which the directions to both are taken.
pub const CHIN_LINE: [usize; 3] = [2, 200, 168];

/// The calibration offset, 0.314159 radians, taken off the measured chin angle. It was
/// tuned by hand and is kept to the bit.
pub const CHIN_OFFSET: u32 = 0x3ea0_d973;

/// The calibration gain, 1.15, applied to the chin angle after the offset is taken off.
/// It was tuned by hand and is kept to the bit.
pub const CHIN_GAIN: u32 = 0x3f93_3333;

/// The two corners of the mouth.
pub const MOUTH_CORNERS: [usize; 2] = [61, 291];

/// The upper and the lower lip. The centre of the corners is projected onto the axis
/// from the first to the second.
pub const LIPS: [usize; 2] = [0, 17];

/// What the kernel measured at the mouth.
///
/// With `c` the centre of the two corners projected onto the lip axis and `m` the
/// midpoint of the lips, `first_corner` and `second_corner` are the angles at the first
/// and at the second of [`MOUTH_CORNERS`] between the corner's directions from `c` and
/// from `m`. The depths are the z coordinates of `m` and of `c`.
#[derive(Clone, Copy, Debug, PartialEq, Eq, Structural)]
pub struct Mouth {
    pub first_corner: u32,
    pub second_corner: u32,
    pub lips_depth: u32,
    pub projected_depth: u32,
}

/// The orientation of the head: its tangent is the midpoint of the first origin pair,
/// its normal the midpoint of landmarks 1 and 4, its binormal landmark 152. The three
/// are used as they are, without scaling.
pub open spec fn head_basis() -> Basis {
    Basis {
        tangent: Axis::Midpoint(447, 366),
        normal: Axis::Midpoint(1, 4),
        binormal: Axis::Point(152),
        unit: false,
    }
}

/// Files the head's recipe.
pub fn face_rotation(recipes: &mut [Recipe; 4])
    ensures
        final(recipes)@ == old(recipes)@.update(HEAD as int, Recipe::Basis(head_basis())),
        head_basis().within(LANDMARKS as int),
{
    let basis: Basis = Basis {
        tangent: Axis::Midpoint(ORIGIN[0][0], ORIGIN[0][1]),
        normal: Axis::Midpoint(1, 4),
        binormal: Axis::Point(152),
        unit: false,
    };
    recipes[HEAD] = Recipe::Basis(basis);
}

/// Files the chin's recipe: a turn about x by `angle`, the measured angle after offset
/// and gain. An undefined angle leaves the chin without rotation.
pub fn chin_rotation(recipes: &mut [Recipe; 4], angle: u32)
    ensures
        final(recipes)@ == old(recipes)@.update(CHIN as int, Recipe::about_x_spec(angle)),
{
    recipes[CHIN] = Recipe::about_x(angle);
}

/// The angle of a mouth corner with its sign: negated when the midpoint of the lips
/// lies in front of the projected centre of the corners, that is, at a smaller depth.
pub open spec fn corner_angle(angle: u32, mouth: Mouth) -> u32 {
    if scalar::less_than_spec(mouth.lips_depth, mouth.projected_depth) {
        scalar::negated(angle)
    } else {
        angle
    }
}

/// Files the recipes of both mouth corners: each a turn about z by the signed angle of
/// the corner on the other side. Both angles are negated together or not at all.
pub fn mouth_corner_angles(recipes: &mut [Recipe; 4], mouth: Mouth)
    ensures
        final(recipes)@ == old(recipes)@.update(
            MOUTH_LEFT as int,
            Recipe::about_z_spec(corner_angle(mouth.second_corner, mouth)),
        ).update(MOUTH_RIGHT as int, Recipe::about_z_spec(corner_angle(mouth.first_corner, mouth))),
{
    let mut first: u32 = mouth.first_corner;
    let mut second: u32 = mouth.second_corner;
    if scalar::less_than(mouth.lips_depth, mouth.projected_depth) {
        first = scalar::negate(first);
        second = scalar::negate(second);
    }
    recipes[MOUTH_LEFT] = Recipe::about_z(second);
    recipes[MOUTH_RIGHT] = Recipe::about_z(first);
}

/// The recipe of every joint of the face.
pub open spec fn recipe_of(chin: u32, mouth: Mouth, joint: int) -> Recipe {
    if joint == HEAD {
        Recipe::Basis(head_basis())
    } else if joint == CHIN {
        Recipe::about_x_spec(chin)
    } else if joint == MOUTH_LEFT {
        Recipe::about_z_spec(corner_angle(mouth.second_corner, mouth))
    } else {
        Recipe::about_z_spec(corner_angle(mouth.first_corner, mouth))
    }
}

/// The recipes of all 4 joints, from the chin angle and what was measured at the
/// mouth.
pub fn solve(chin: u32, mouth: Mouth) -> (recipes: [Recipe; 4])
    ensures
        forall|j: int| 0 <= j < ROTATIONS ==> #[trigger] recipes[j] == recipe_of(chin, mouth, j),
        forall|j: int| 0 <= j < ROTATIONS ==> (#[trigger] recipes[j]).within(LANDMARKS as int),
{
    let mut recipes: [Recipe; 4] = [Recipe::Undefined; 4];
    face_rotation(&mut recipes);
    mouth_corner_angles(&mut recipes, mouth);
    chin_rotation(&mut recipes, chin);
    recipes
}

} // verus!
