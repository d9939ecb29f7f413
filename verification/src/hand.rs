//! The hand solver: 21 landmarks in, one recipe for each of the 21 joints out.
//!
//! Landmark 0 is the wrist. Finger `f` (0 the thumb, 4 the little finger) owns the four
//! landmarks `1 + 4 f ..= 4 + 4 f`, from its knuckle to its tip. Each of the first three
//! gets a flexion angle, the knuckle also a twist angle; the tip gets nothing.
//!
//! The angles themselves are measured by the geometry kernel. This module says which
//! landmarks each measurement takes, gives the measured angle its sign, files it under
//! its joint, and turns the filled table into recipes.

use crate::recipe::{framed, Axis, Basis, Recipe};
use crate::rotation::Rotation;
use crate::scalar;
use vstd::arithmetic::div_mod::{lemma_mod_add_multiples_vanish, lemma_small_mod};
use vstd::prelude::*;

verus! {

/// Number of landmarks.
pub const LANDMARKS: usize = 21;

/// Number of rotations in a frame: one for every landmark.
pub const ROTATIONS: usize = 21;

/// The landmark all others are measured from.
pub const WRIST: usize = 0;

/// The landmarks of each finger, knuckle first.
pub const FINGERS: [[usize; 4]; 5] = [
    [1, 2, 3, 4],
    [5, 6, 7, 8],
    [9, 10, 11, 12],
    [13, 14, 15, 16],
    [17, 18, 19, 20],
];

/// For each interior joint of a five-point chain, the positions of the point before
/// it, of the joint and of the point after it.
pub const JOINTS: [[usize; 3]; 3] = [[0, 1, 2], [1, 2, 3], [2, 3, 4]];

/// The positions in a five-point chain that carry its stabilising plane: the first,
/// the second and the last.
pub const PLANE: [usize; 3] = [0, 1, 4];

/// Number of samples on the circle that a finger's twist is read from.
pub const SAMPLES: usize = 6;

/// The two angles of a joint. Either is NaN while nothing is known.
#[derive(Clone, Copy, Debug, PartialEq, Eq, Structural)]
pub struct JointAngle {
    pub flexion: u32,
    pub twist: u32,
}

/// What the kernel measured for the twist of one finger: the unsigned angle between the
/// bend point and the sample of the circle closest to it, both seen from the centre, and
/// the signed distance of the bend point from the local plane of the circle.
#[derive(Clone, Copy, Debug, PartialEq, Eq, Structural)]
pub struct Twist {
    pub angle: u32,
    pub side: u32,
}

/// Which landmarks the twist measurement of a finger takes.
#[derive(Clone, Copy, Debug, PartialEq, Eq, Structural)]
pub enum TwistPlan {
    /// Measured inside the plane through `plane_a`, `plane_b`, `plane_c`: with the three
    /// landmarks `pivot`, `first`, `second` projected onto it, the angle between
    /// `pivot - first` and `pivot - second`. It carries no sign.
    Planar { plane_a: usize, plane_b: usize, plane_c: usize, pivot: usize, first: usize, second: usize },
    /// Measured on a circle. Its centre is `knuckle` projected onto the line from
    /// `line_from` to `line_to`, its radius the distance from there to `bend`. It lies
    /// in the plane spanned by `toward - from` and by the cross product of the line's
    /// direction with `toward - from`.
    Circular {
        knuckle: usize,
        bend: usize,
        line_from: usize,
        line_to: usize,
        toward: usize,
        from: usize,
    },
}

impl TwistPlan {
    /// Every landmark of the plan is a hand landmark.
    pub open spec fn within(self) -> bool {
        match self {
            TwistPlan::Planar { plane_a, plane_b, plane_c, pivot, first, second } => {
                &&& plane_a < LANDMARKS
                &&& plane_b < LANDMARKS
                &&& plane_c < LANDMARKS
                &&& pivot < LANDMARKS
                &&& first < LANDMARKS
                &&& second < LANDMARKS
            },
            TwistPlan::Circular { knuckle, bend, line_from, line_to, toward, from } => {
                &&& knuckle < LANDMARKS
                &&& bend < LANDMARKS
                &&& line_from < LANDMARKS
                &&& line_to < LANDMARKS
                &&& toward < LANDMARKS
                &&& from < LANDMARKS
            },
        }
    }
}

/// Landmark `k` of finger `finger`, counted from the knuckle.
pub open spec fn finger_landmark(finger: int, k: int) -> int {
    1 + 4 * finger + k
}

/// The finger that owns a landmark other than the wrist.
pub open spec fn finger_of(joint: int) -> int {
    (joint - 1) / 4
}

/// The place of a landmark within its finger: 0 for the knuckle, 3 for the tip.
pub open spec fn place_of(joint: int) -> int {
    (joint - 1) % 4
}

/// The joint is one of the five fingertips.
pub open spec fn is_tip(joint: int) -> bool {
    1 <= joint < LANDMARKS && place_of(joint) == 3
}

/// The joint is one of the five knuckles.
pub open spec fn is_knuckle(joint: int) -> bool {
    1 <= joint < LANDMARKS && place_of(joint) == 0
}

/// The tables agree with the numbering, and nothing in them points outside what it
/// indexes: a finger's landmarks are hand landmarks, and the positions of a chain's
/// joints and of its plane are positions of a five-point chain.
pub proof fn lemma_tables_in_range()
    ensures
        forall|f: int, k: int|
            0 <= f < 5 && 0 <= k < 4 ==> #[trigger] FINGERS[f][k] == finger_landmark(f, k)
                && FINGERS[f][k] < LANDMARKS,
        forall|i: int, k: int| 0 <= i < 3 && 0 <= k < 3 ==> #[trigger] JOINTS[i][k] == i + k,
        forall|k: int| 0 <= k < 3 ==> #[trigger] PLANE[k] < 5,
{
}

/// The landmark chain of a finger: the wrist, then the finger from knuckle to tip.
pub fn finger_chain(finger: usize) -> (chain: [usize; 5])
    requires
        finger < 5,
    ensures
        chain[0] == WRIST,
        forall|i: int| 1 <= i < 5 ==> #[trigger] chain[i] == finger_landmark(finger as int, i - 1),
        forall|i: int| 0 <= i < 5 ==> #[trigger] chain[i] < LANDMARKS,
{
    let mut chain: [usize; 5] = [WRIST; 5];
    let mut k: usize = 0;
    while k < 4
        invariant
            finger < 5,
            k <= 4,
            chain[0] == WRIST,
            forall|i: int| 1 <= i <= k ==> #[trigger] chain[i] == finger_landmark(finger as int, i - 1),
            forall|i: int| 0 <= i < 5 ==> #[trigger] chain[i] < LANDMARKS,
        decreases 4 - k,
    {
        chain[k + 1] = FINGERS[finger][k];
        k += 1;
    }
    chain
}

/// The flexion a joint holds once the bends of all fingers are filed: bend `k` of
/// finger `f` belongs to landmark `k` of that finger, for the first three landmarks.
/// The wrist and the fingertips hold none.
pub open spec fn flexion_of(bends: [[u32; 3]; 5], joint: int) -> u32 {
    if 1 <= joint < LANDMARKS && place_of(joint) < 3 {
        bends[finger_of(joint)][place_of(joint)]
    } else {
        scalar::NAN
    }
}

/// Files the measured bends. `bends[f][k]` is the angle, measured in the stabilising
/// plane of finger `f`, between the bone that enters interior joint `k` of its chain and
/// the bone that leaves it.
pub fn x_angles(bends: &[[u32; 3]; 5]) -> (angles: [JointAngle; 21])
    ensures
        forall|j: int|
            0 <= j < LANDMARKS ==> (#[trigger] angles[j]).flexion == flexion_of(*bends, j)
                && angles[j].twist == scalar::NAN,
{
    let blank: JointAngle = JointAngle { flexion: scalar::NAN, twist: scalar::NAN };
    let mut angles: [JointAngle; 21] = [blank; 21];
    let mut finger: usize = 0;
    while finger < 5
        invariant
            finger <= 5,
            forall|j: int|
                0 <= j < LANDMARKS ==> (#[trigger] angles[j]).twist == scalar::NAN
                    && angles[j].flexion == (if j < 1 + 4 * finger {
                        flexion_of(*bends, j)
                    } else {
                        scalar::NAN
                    }),
        decreases 5 - finger,
    {
        let mut k: usize = 0;
        while k < 3
            invariant
                finger < 5,
                k <= 3,
                forall|j: int|
                    0 <= j < LANDMARKS ==> (#[trigger] angles[j]).twist == scalar::NAN
                        && angles[j].flexion == (if j < 1 + 4 * finger + k {
                            flexion_of(*bends, j)
                        } else {
                            scalar::NAN
                        }),
            decreases 3 - k,
        {
            let joint: usize = FINGERS[finger][k];
            angles[joint] = JointAngle { flexion: bends[finger][k], twist: scalar::NAN };
            k += 1;
        }
        finger += 1;
    }
    angles
}

/// The landmarks that the twist of a finger is measured from.
///
/// The thumb is measured in the plane through the wrist, its own knuckle and the
/// knuckle of the index finger. The other four are measured on a circle about the
/// knuckle line, which runs from the index knuckle to the little finger's. The circle
/// of the index and middle finger faces along the vector from the wrist to the little
/// finger's knuckle, that of the ring and little finger along the vector from the
/// thumb's knuckle to the index knuckle.
pub open spec fn twist_plan_spec(finger: int) -> TwistPlan {
    if finger == 0 {
        TwistPlan::Planar { plane_a: 0, plane_b: 1, plane_c: 5, pivot: 1, first: 5, second: 2 }
    } else if finger <= 2 {
        TwistPlan::Circular {
            knuckle: finger_landmark(finger, 0) as usize,
            bend: finger_landmark(finger, 2) as usize,
            line_from: 5,
            line_to: 17,
            toward: 17,
            from: 0,
        }
    } else {
        TwistPlan::Circular {
            knuckle: finger_landmark(finger, 0) as usize,
            bend: finger_landmark(finger, 2) as usize,
            line_from: 5,
            line_to: 17,
            toward: 5,
            from: 1,
        }
    }
}

/// The twist measurement of one finger.
pub fn twist_plan(finger: usize) -> (plan: TwistPlan)
    requires
        finger < 5,
    ensures
        plan == twist_plan_spec(finger as int),
        plan.within(),
        (plan is Planar) == (finger == 0),
{
    let index: usize = FINGERS[1][0];
    let little: usize = FINGERS[4][0];
    let thumb: usize = FINGERS[0][0];
    if finger == 0 {
        TwistPlan::Planar {
            plane_a: WRIST,
            plane_b: thumb,
            plane_c: index,
            pivot: thumb,
            first: index,
            second: FINGERS[0][1],
        }
    } else {
        let (toward, from): (usize, usize) = if finger <= 2 {
            (little, WRIST)
        } else {
            (index, thumb)
        };
        TwistPlan::Circular {
            knuckle: FINGERS[finger][0],
            bend: FINGERS[finger][2],
            line_from: index,
            line_to: little,
            toward,
            from,
        }
    }
}

/// The sample one step before sample `closest` on a ring of `samples`.
pub open spec fn before_on_ring(closest: int, samples: int) -> int {
    (closest + samples - 1) % samples
}

/// The sample one step after sample `closest` on a ring of `samples`.
pub open spec fn after_on_ring(closest: int, samples: int) -> int {
    (closest + 1) % samples
}

/// The samples next to sample `closest` on a ring of `samples`: the one a step before
/// it and the one a step after it, wrapping around at both ends. The plane through
/// the sample before, the closest sample and the sample after, in this order, is the
/// local plane of the circle from which the side of the bend point is taken.
pub fn circle_neighbours(closest: usize, samples: usize) -> (around: (usize, usize))
    requires
        closest < samples,
    ensures
        around.0 == before_on_ring(closest as int, samples as int),
        around.1 == after_on_ring(closest as int, samples as int),
        around.0 < samples,
        around.1 < samples,
{
    proof {
        if closest == 0 {
            lemma_small_mod((samples - 1) as nat, samples as nat);
        } else {
            lemma_mod_add_multiples_vanish(closest - 1, samples as int);
            lemma_small_mod((closest - 1) as nat, samples as nat);
        }
        if closest + 1 == samples {
            lemma_mod_add_multiples_vanish(0, samples as int);
            lemma_small_mod(0, samples as nat);
        } else {
            lemma_small_mod((closest + 1) as nat, samples as nat);
        }
    }
    let before: usize = if closest == 0 {
        samples - 1
    } else {
        closest - 1
    };
    let after: usize = if closest + 1 == samples {
        0
    } else {
        closest + 1
    };
    (before, after)
}

/// Wrapping around gives the same two samples as reading three copies of the ring laid
/// end to end, one place before and one place after the closest sample's place in the
/// middle copy.
pub proof fn lemma_neighbours_in_tripled_ring<A>(ring: Seq<A>, closest: int)
    requires
        0 <= closest < ring.len(),
    ensures
        (ring + ring + ring)[ring.len() + closest - 1] == ring[before_on_ring(closest, ring.len() as int)],
        (ring + ring + ring)[ring.len() + closest + 1] == ring[after_on_ring(closest, ring.len() as int)],
{
    let n: int = ring.len() as int;
    if closest == 0 {
        lemma_small_mod((n - 1) as nat, n as nat);
    } else {
        lemma_mod_add_multiples_vanish(closest - 1, n);
        lemma_small_mod((closest - 1) as nat, n as nat);
    }
    if closest + 1 == n {
        lemma_mod_add_multiples_vanish(0, n);
        lemma_small_mod(0, n as nat);
    } else {
        lemma_small_mod((closest + 1) as nat, n as nat);
    }
}

/// The twist with its sign: the measured angle, negated when the bend point lies
/// strictly behind the local plane of the circle.
pub open spec fn signed_twist_spec(twist: Twist) -> u32 {
    if scalar::is_negative_spec(twist.side) {
        scalar::negated(twist.angle)
    } else {
        twist.angle
    }
}

/// Gives a measured twist its sign.
#[verifier::when_used_as_spec(signed_twist_spec)]
pub fn signed_twist(twist: Twist) -> (angle: u32)
    ensures
        angle == signed_twist_spec(twist),
        scalar::magnitude(angle) == scalar::magnitude(twist.angle),
{
    proof {
        scalar::lemma_negated(twist.angle);
    }
    if scalar::is_negative(twist.side) {
        scalar::negate(twist.angle)
    } else {
        twist.angle
    }
}

/// Mirroring a finger through the local plane of its circle turns the sign of its
/// twist and keeps the magnitude. This holds wherever the bend point has a side, that
/// is, wherever its distance from the plane is a number other than zero.
pub proof fn lemma_mirrored_twist(angle: u32, side: u32)
    requires
        !scalar::is_nan_spec(side),
        scalar::value(side) != 0,
    ensures
        signed_twist_spec(Twist { angle, side: scalar::negated(side) }) == scalar::negated(
            signed_twist_spec(Twist { angle, side }),
        ),
        scalar::value(signed_twist_spec(Twist { angle, side: scalar::negated(side) }))
            == -scalar::value(signed_twist_spec(Twist { angle, side })),
        scalar::magnitude(signed_twist_spec(Twist { angle, side: scalar::negated(side) }))
            == scalar::magnitude(signed_twist_spec(Twist { angle, side })),
{
    scalar::lemma_negated(side);
    scalar::lemma_negated(angle);
    scalar::lemma_negated(scalar::negated(angle));
}

/// The twist a joint holds once the twists are filed: the thumb's unsigned angle at
/// the thumb's knuckle, the signed angle of each other finger at its knuckle, and
/// whatever the joint held before everywhere else.
pub open spec fn twist_of(before: u32, joint: int, thumb: u32, fingers: [Twist; 4]) -> u32 {
    if joint == 1 {
        thumb
    } else if is_knuckle(joint) {
        signed_twist_spec(fingers[finger_of(joint) - 1])
    } else {
        before
    }
}

/// Files the measured twists. `thumb` is the thumb's angle, and `fingers[i]` what was
/// measured for finger `i + 1`.
pub fn z_angles(angles: &[JointAngle; 21], thumb: u32, fingers: &[Twist; 4]) -> (out: [JointAngle; 21])
    ensures
        forall|j: int|
            0 <= j < LANDMARKS ==> (#[trigger] out[j]).flexion == angles[j].flexion && out[j].twist
                == twist_of(angles[j].twist, j, thumb, *fingers),
{
    let mut out: [JointAngle; 21] = *angles;
    let thumb_joint: usize = FINGERS[0][0];
    out[thumb_joint] = JointAngle { flexion: angles[thumb_joint].flexion, twist: thumb };
    let mut i: usize = 0;
    while i < 4
        invariant
            i <= 4,
            forall|j: int|
                0 <= j < LANDMARKS ==> (#[trigger] out[j]).flexion == angles[j].flexion
                    && out[j].twist == (if j < 5 + 4 * i {
                        twist_of(angles[j].twist, j, thumb, *fingers)
                    } else {
                        angles[j].twist
                    }),
        decreases 4 - i,
    {
        let joint: usize = FINGERS[i + 1][0];
        out[joint] = JointAngle { flexion: angles[joint].flexion, twist: signed_twist(fingers[i]) };
        i += 1;
    }
    out
}

/// The recipe for a joint with the given angles. Without a flexion there is no
/// rotation, whatever the twist. With a flexion alone the joint turns about x. With
/// both it turns about x and then about z.
pub open spec fn joint_recipe(angle: JointAngle) -> Recipe {
    if scalar::is_nan_spec(angle.flexion) {
        Recipe::Undefined
    } else if scalar::is_nan_spec(angle.twist) {
        Recipe::AboutX(angle.flexion)
    } else {
        Recipe::AboutXThenZ(angle.flexion, angle.twist)
    }
}

/// Turns the angle table into recipes, joint by joint.
pub fn angles_to_quaternions(angles: &[JointAngle; 21]) -> (recipes: [Recipe; 21])
    ensures
        forall|j: int| 0 <= j < LANDMARKS ==> #[trigger] recipes[j] == joint_recipe(angles[j]),
{
    let mut recipes: [Recipe; 21] = [Recipe::Undefined; 21];
    let mut j: usize = 0;
    while j < 21
        invariant
            j <= 21,
            forall|i: int| 0 <= i < j ==> #[trigger] recipes[i] == joint_recipe(angles[i]),
        decreases 21 - j,
    {
        let angle: JointAngle = angles[j];
        recipes[j] = if scalar::is_nan(angle.flexion) {
            Recipe::Undefined
        } else if scalar::is_nan(angle.twist) {
            Recipe::AboutX(angle.flexion)
        } else {
            Recipe::AboutXThenZ(angle.flexion, angle.twist)
        };
        j += 1;
    }
    recipes
}

/// The orientation of the wrist. Its normal runs from the thumb's knuckle to the index
/// knuckle, its binormal from the index knuckle to the ring finger's, and its tangent
/// is their cross product. All three are unit vectors.
pub open spec fn wrist_basis() -> Basis {
    Basis {
        tangent: Axis::BinormalCrossNormal,
        normal: Axis::Edge(5, 1),
        binormal: Axis::Edge(13, 5),
        unit: true,
    }
}

/// Gives the wrist its recipe and leaves every other joint as it is.
pub fn hand_rotation(recipes: &mut [Recipe; 21])
    ensures
        final(recipes)@ == old(recipes)@.update(WRIST as int, Recipe::Basis(wrist_basis())),
        wrist_basis().within(LANDMARKS as int),
{
    let basis: Basis = Basis {
        tangent: Axis::BinormalCrossNormal,
        normal: Axis::Edge(FINGERS[1][0], FINGERS[0][0]),
        binormal: Axis::Edge(FINGERS[3][0], FINGERS[1][0]),
        unit: true,
    };
    recipes[WRIST] = Recipe::Basis(basis);
}

/// The recipe of a joint, from everything that was measured on the hand.
pub open spec fn recipe_of(bends: [[u32; 3]; 5], thumb: u32, fingers: [Twist; 4], joint: int) -> Recipe {
    if joint == WRIST {
        Recipe::Basis(wrist_basis())
    } else {
        joint_recipe(
            JointAngle {
                flexion: flexion_of(bends, joint),
                twist: twist_of(scalar::NAN, joint, thumb, fingers),
            },
        )
    }
}

/// The recipes of the whole hand, as a sequence.
pub open spec fn recipes_of(bends: [[u32; 3]; 5], thumb: u32, fingers: [Twist; 4]) -> Seq<Recipe> {
    Seq::new(LANDMARKS as nat, |j: int| recipe_of(bends, thumb, fingers, j))
}

/// Whatever was measured and whatever the kernel computed, a fingertip has no rotation
/// in the frame, and a finger joint has one only if its flexion is defined.
pub proof fn lemma_joints_without_flexion(
    bends: [[u32; 3]; 5],
    thumb: u32,
    fingers: [Twist; 4],
    solved: Seq<Rotation>,
    joint: int,
)
    requires
        1 <= joint < LANDMARKS,
    ensures
        is_tip(joint) ==> recipe_of(bends, thumb, fingers, joint) == Recipe::Undefined,
        scalar::is_nan_spec(flexion_of(bends, joint)) ==> framed(
            recipes_of(bends, thumb, fingers),
            solved,
        )[joint] == Rotation::undefined_spec(),
{
}

/// The recipes of all 21 joints: files the bends and the twists, turns the angles
/// into recipes and adds the wrist.
pub fn solve(bends: &[[u32; 3]; 5], thumb: u32, fingers: &[Twist; 4]) -> (recipes: [Recipe; 21])
    ensures
        forall|j: int|
            0 <= j < LANDMARKS ==> #[trigger] recipes[j] == recipe_of(*bends, thumb, *fingers, j),
        forall|j: int| 0 <= j < LANDMARKS ==> (#[trigger] recipes[j]).within(LANDMARKS as int),
        forall|j: int| is_tip(j) ==> #[trigger] recipes[j] == Recipe::Undefined,
{
    let flexed: [JointAngle; 21] = x_angles(bends);
    let angles: [JointAngle; 21] = z_angles(&flexed, thumb, fingers);
    let mut recipes: [Recipe; 21] = angles_to_quaternions(&angles);
    hand_rotation(&mut recipes);
    recipes
}

} // verus!
