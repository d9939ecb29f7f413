//! The body solver: 33 landmarks in, one recipe for each of 36 joints out.
//!
//! Three points are added to the 33 tracked ones before anything is measured: the
//! centre of the hips, which becomes the origin, the centre of the shoulders, and a
//! slot that keeps the origin's position in the frame of the tracker. Joints and
//! points share their numbering, so there are 36 of each.
//!
//! Nothing is measured ahead of time for the body: every recipe is fixed by the
//! numbering alone.

use crate::recipe::{Axis, Basis, Recipe, Track};
use vstd::prelude::*;

verus! {

/// Number of tracked landmarks.
pub const LANDMARKS: usize = 33;

/// Number of points once the three synthesised ones are added, and number of rotations
/// in a frame.
pub const ROTATIONS: usize = 36;

pub const LEFT_SHOULDER: usize = 11;

pub const RIGHT_SHOULDER: usize = 12;

pub const LEFT_HIP: usize = 23;

pub const RIGHT_HIP: usize = 24;

/// The point halfway between the hips. Every point is taken relative to it.
pub const HIP_CENTER: usize = 33;

/// The point halfway between the shoulders.
pub const SHOULDER_CENTER: usize = 34;

/// The slot that keeps where the hip centre was before it became the origin.
pub const OFFSET: usize = 35;

/// The limb chains, each from its root to its tip: left leg, right leg, left arm,
/// right arm.
pub const LIMBS: [[usize; 4]; 4] = [
    [23, 25, 27, 31],
    [24, 26, 28, 32],
    [11, 13, 15, 19],
    [12, 14, 16, 20],
];

/// The reference axis that a limb's track rotation turns along the bone.
pub const LIMB_TRACK: u8 = 4;

/// The secondary axis that fixes the roll of a limb's track rotation.
pub const LIMB_UP: u8 = 2;

/// The reference axis of the two track rotations behind the shoulder joint.
pub const GIRDLE_TRACK: u8 = 2;

/// The secondary axis of the two track rotations behind the shoulder joint.
pub const GIRDLE_UP: u8 = 1;

/// The bone that leaves position `i` of a chain, as a limb track rotation.
pub open spec fn chain_track(chain: [usize; 4], i: int) -> Track {
    Track { head: chain[i], tail: chain[i + 1], track: LIMB_TRACK, up: LIMB_UP }
}

/// The track rotations along the three bones of a four-point chain. Rotation `i`
/// belongs to the point at position `i`; the tip has none.
pub fn calc_limb_chain_rotations(chain: &[usize; 4]) -> (tracks: [Track; 3])
    ensures
        forall|i: int| 0 <= i < 3 ==> #[trigger] tracks[i] == chain_track(*chain, i),
{
    let first: Track = Track { head: chain[0], tail: chain[1], track: LIMB_TRACK, up: LIMB_UP };
    let mut tracks: [Track; 3] = [first; 3];
    let mut i: usize = 1;
    while i < 4
        invariant
            1 <= i <= 4,
            forall|k: int| 0 <= k < i - 1 ==> #[trigger] tracks[k] == chain_track(*chain, k),
        decreases 4 - i,
    {
        tracks[i - 1] = Track { head: chain[i - 1], tail: chain[i], track: LIMB_TRACK, up: LIMB_UP };
        i += 1;
    }
    tracks
}

/// The joint gets a rotation from a limb chain: hips and knees, shoulders, elbows and
/// wrists. The ankles are on a chain too, but get their rotation from the feet.
pub open spec fn is_limb_joint(joint: int) -> bool {
    11 <= joint <= 16 || 23 <= joint <= 26
}

/// The landmark that follows a limb joint on its chain. Left and right alternate in
/// the numbering, so it is two further on, except for the step from the wrist to the
/// index finger's knuckle, which is four.
pub open spec fn next_on_limb(joint: int) -> int {
    if joint == 15 || joint == 16 {
        joint + 4
    } else {
        joint + 2
    }
}

/// The recipe of a limb joint: the track rotation along the bone that leaves it.
pub open spec fn limb_recipe(joint: int) -> Recipe {
    Recipe::Track(
        Track {
            head: joint as usize,
            tail: next_on_limb(joint) as usize,
            track: LIMB_TRACK,
            up: LIMB_UP,
        },
    )
}

/// Gives every limb joint its recipe and leaves the other joints as they are. Of the
/// three rotations of a leg chain the first two are used, of an arm chain all three.
pub fn limb_rotations(recipes: &mut [Recipe; 36])
    ensures
        forall|j: int|
            0 <= j < ROTATIONS ==> #[trigger] final(recipes)[j] == (if is_limb_joint(j) {
                limb_recipe(j)
            } else {
                old(recipes)[j]
            }),
{
    let left_leg: [Track; 3] = calc_limb_chain_rotations(&LIMBS[0]);
    recipes[LIMBS[0][0]] = Recipe::Track(left_leg[0]);
    recipes[LIMBS[0][1]] = Recipe::Track(left_leg[1]);

    let right_leg: [Track; 3] = calc_limb_chain_rotations(&LIMBS[1]);
    recipes[LIMBS[1][0]] = Recipe::Track(right_leg[0]);
    recipes[LIMBS[1][1]] = Recipe::Track(right_leg[1]);

    let left_arm: [Track; 3] = calc_limb_chain_rotations(&LIMBS[2]);
    recipes[LIMBS[2][0]] = Recipe::Track(left_arm[0]);
    recipes[LIMBS[2][1]] = Recipe::Track(left_arm[1]);
    recipes[LIMBS[2][2]] = Recipe::Track(left_arm[2]);

    let right_arm: [Track; 3] = calc_limb_chain_rotations(&LIMBS[3]);
    recipes[LIMBS[3][0]] = Recipe::Track(right_arm[0]);
    recipes[LIMBS[3][1]] = Recipe::Track(right_arm[1]);
    recipes[LIMBS[3][2]] = Recipe::Track(right_arm[2]);
}

/// The orientation of the torso. Its normal is that of the plane through the left hip,
/// the right hip and the shoulder centre; its tangent runs from the hip centre to the
/// right hip, its binormal from the hip centre to the shoulder centre.
pub open spec fn torso_basis() -> Basis {
    Basis {
        tangent: Axis::Edge(24, 33),
        normal: Axis::PlaneNormal(23, 24, 34),
        binormal: Axis::Edge(34, 33),
        unit: true,
    }
}

/// Files the torso's recipe under the hip centre.
pub fn torso_rotation(recipes: &mut [Recipe; 36])
    ensures
        final(recipes)@ == old(recipes)@.update(HIP_CENTER as int, Recipe::Basis(torso_basis())),
{
    let basis: Basis = Basis {
        tangent: Axis::Edge(RIGHT_HIP, HIP_CENTER),
        normal: Axis::PlaneNormal(LEFT_HIP, RIGHT_HIP, SHOULDER_CENTER),
        binormal: Axis::Edge(SHOULDER_CENTER, HIP_CENTER),
        unit: true,
    };
    recipes[HIP_CENTER] = Recipe::Basis(basis);
}

/// The rotation of the shoulder girdle against the hips: the track rotation from the
/// shoulder centre to the right shoulder, minus the one from the hip centre to the
/// right hip. The difference is taken component by component.
pub open spec fn shoulder_recipe() -> Recipe {
    Recipe::TrackDifference(
        Track { head: 12, tail: 34, track: GIRDLE_TRACK, up: GIRDLE_UP },
        Track { head: 24, tail: 33, track: GIRDLE_TRACK, up: GIRDLE_UP },
    )
}

/// Files the shoulder girdle's recipe under the shoulder centre.
pub fn shoulder_rotation(recipes: &mut [Recipe; 36])
    ensures
        final(recipes)@ == old(recipes)@.update(SHOULDER_CENTER as int, shoulder_recipe()),
{
    let shoulders: Track = Track {
        head: RIGHT_SHOULDER,
        tail: SHOULDER_CENTER,
        track: GIRDLE_TRACK,
        up: GIRDLE_UP,
    };
    let hips: Track = Track { head: RIGHT_HIP, tail: HIP_CENTER, track: GIRDLE_TRACK, up: GIRDLE_UP };
    recipes[SHOULDER_CENTER] = Recipe::TrackDifference(shoulders, hips);
}

/// The orientation of the foot whose ankle is `ankle`. Knee, ankle and toes form a
/// triangle: the tangent is its normal, the normal runs from the toes to the ankle and
/// the binormal from the toes to the knee.
pub open spec fn foot_basis(ankle: int) -> Basis {
    Basis {
        tangent: Axis::PlaneNormal((ankle - 2) as usize, ankle as usize, (ankle + 4) as usize),
        normal: Axis::Edge(ankle as usize, (ankle + 4) as usize),
        binormal: Axis::Edge((ankle - 2) as usize, (ankle + 4) as usize),
        unit: true,
    }
}

/// Files the recipes of both feet under the ankles.
pub fn foot_rotations(recipes: &mut [Recipe; 36])
    ensures
        final(recipes)@ == old(recipes)@.update(27, Recipe::Basis(foot_basis(27))).update(
            28,
            Recipe::Basis(foot_basis(28)),
        ),
{
    let mut side: usize = 0;
    while side < 2
        invariant
            side <= 2,
            side == 0 ==> recipes@ == old(recipes)@,
            side == 1 ==> recipes@ == old(recipes)@.update(27, Recipe::Basis(foot_basis(27))),
            side == 2 ==> recipes@ == old(recipes)@.update(27, Recipe::Basis(foot_basis(27))).update(
                28,
                Recipe::Basis(foot_basis(28)),
            ),
        decreases 2 - side,
    {
        let knee: usize = LIMBS[side][1];
        let ankle: usize = LIMBS[side][2];
        let toes: usize = LIMBS[side][3];
        recipes[ankle] = Recipe::Basis(
            Basis {
                tangent: Axis::PlaneNormal(knee, ankle, toes),
                normal: Axis::Edge(ankle, toes),
                binormal: Axis::Edge(knee, toes),
                unit: true,
            },
        );
        side += 1;
    }
}

/// The recipe of every joint of the body.
pub open spec fn recipe_of(joint: int) -> Recipe {
    if joint == HIP_CENTER {
        Recipe::Basis(torso_basis())
    } else if joint == SHOULDER_CENTER {
        shoulder_recipe()
    } else if joint == 27 || joint == 28 {
        Recipe::Basis(foot_basis(joint))
    } else if is_limb_joint(joint) {
        limb_recipe(joint)
    } else {
        Recipe::Undefined
    }
}

/// The recipes of all 36 joints. Fourteen joints get one: the torso, the shoulder
/// girdle, ten limb joints and the two feet. Every landmark a recipe names is one of
/// the 36 points.
pub fn calc_rotation_data() -> (recipes: [Recipe; 36])
    ensures
        forall|j: int| 0 <= j < ROTATIONS ==> #[trigger] recipes[j] == recipe_of(j),
        forall|j: int| 0 <= j < ROTATIONS ==> (#[trigger] recipes[j]).within(ROTATIONS as int),
{
    let mut recipes: [Recipe; 36] = [Recipe::Undefined; 36];
    shoulder_rotation(&mut recipes);
    torso_rotation(&mut recipes);
    limb_rotations(&mut recipes);
    foot_rotations(&mut recipes);
    recipes
}

} // verus!
