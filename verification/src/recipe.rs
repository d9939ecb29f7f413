//! Recipes: what a solver decides about a joint before any geometry is evaluated.
//!
//! A solver does not compute quaternions itself. For every joint it records *how* the
//! rotation is to be obtained, naming landmarks by their index and angles by their bit
//! pattern. Evaluating a recipe is left to the geometry kernel; placing the result in
//! the output frame is done here again, by [`frame`].

use crate::rotation::Rotation;
use crate::scalar;
use vstd::prelude::*;

verus! {

/// One axis of a basis, as a vector built from landmarks.
#[derive(Clone, Copy, Debug, PartialEq, Eq, Structural)]
pub enum Axis {
    /// The position of a landmark.
    Point(usize),
    /// The point halfway between two landmarks.
    Midpoint(usize, usize),
    /// The vector from the second landmark to the first: `head - tail`.
    Edge(usize, usize),
    /// The normal of the plane fitted through three landmarks, in this winding.
    PlaneNormal(usize, usize, usize),
    /// The cross product of the basis's own binormal and normal, in that order.
    BinormalCrossNormal,
}

/// An absolute orientation given by three axes. The axes are used as they come and
/// are not made orthogonal to each other.
#[derive(Clone, Copy, Debug, PartialEq, Eq, Structural)]
pub struct Basis {
    pub tangent: Axis,
    pub normal: Axis,
    pub binormal: Axis,
    /// Whether each axis is scaled to unit length before use.
    pub unit: bool,
}

/// The rotation that turns the reference axis `track` along the reversed unit
/// direction `-(head - tail)`, with `up` as the secondary axis that fixes the roll.
#[derive(Clone, Copy, Debug, PartialEq, Eq, Structural)]
pub struct Track {
    pub head: usize,
    pub tail: usize,
    pub track: u8,
    pub up: u8,
}

/// How the rotation of one joint is obtained.
#[derive(Clone, Copy, Debug, PartialEq, Eq, Structural)]
pub enum Recipe {
    /// The joint has no rotation.
    Undefined,
    /// A rotation about the x axis by the given angle.
    AboutX(u32),
    /// A rotation about the z axis by the given angle.
    AboutZ(u32),
    /// A rotation about x by the first angle, composed with one about z by the second.
    AboutXThenZ(u32, u32),
    /// A track rotation along one bone.
    Track(Track),
    /// The first track rotation minus the second, component by component.
    TrackDifference(Track, Track),
    /// An absolute orientation from three axes.
    Basis(Basis),
}

impl Axis {
    /// Every landmark the axis names lies below `count`.
    pub open spec fn within(self, count: int) -> bool {
        match self {
            Axis::Point(a) => a < count,
            Axis::Midpoint(a, b) => a < count && b < count,
            Axis::Edge(head, tail) => head < count && tail < count,
            Axis::PlaneNormal(a, b, c) => a < count && b < count && c < count,
            Axis::BinormalCrossNormal => true,
        }
    }
}

impl Basis {
    /// Every landmark lies below `count`, and neither the normal nor the binormal is
    /// defined in terms of the other two axes.
    pub open spec fn within(self, count: int) -> bool {
        &&& self.tangent.within(count)
        &&& self.normal.within(count)
        &&& self.binormal.within(count)
        &&& self.normal != Axis::BinormalCrossNormal
        &&& self.binormal != Axis::BinormalCrossNormal
    }
}

impl Track {
    /// Both ends of the bone lie below `count`.
    pub open spec fn within(self, count: int) -> bool {
        self.head < count && self.tail < count
    }
}

impl Recipe {
    /// A turn about x by `angle`, or no rotation where the angle is undefined.
    pub open spec fn about_x_spec(angle: u32) -> Recipe {
        if scalar::is_nan_spec(angle) {
            Recipe::Undefined
        } else {
            Recipe::AboutX(angle)
        }
    }

    /// A turn about z by `angle`, or no rotation where the angle is undefined.
    pub open spec fn about_z_spec(angle: u32) -> Recipe {
        if scalar::is_nan_spec(angle) {
            Recipe::Undefined
        } else {
            Recipe::AboutZ(angle)
        }
    }

    #[verifier::when_used_as_spec(about_x_spec)]
    pub fn about_x(angle: u32) -> (recipe: Recipe)
        ensures
            recipe == Self::about_x_spec(angle),
    {
        if scalar::is_nan(angle) {
            Recipe::Undefined
        } else {
            Recipe::AboutX(angle)
        }
    }

    #[verifier::when_used_as_spec(about_z_spec)]
    pub fn about_z(angle: u32) -> (recipe: Recipe)
        ensures
            recipe == Self::about_z_spec(angle),
    {
        if scalar::is_nan(angle) {
            Recipe::Undefined
        } else {
            Recipe::AboutZ(angle)
        }
    }

    /// Every landmark the recipe names lies below `count`.
    pub open spec fn within(self, count: int) -> bool {
        match self {
            Recipe::Track(t) => t.within(count),
            Recipe::TrackDifference(a, b) => a.within(count) && b.within(count),
            Recipe::Basis(b) => b.within(count),
            _ => true,
        }
    }
}

/// The output entry for one joint, given its recipe and what the kernel computed for
/// it: the all-NaN sentinel where the recipe is `Undefined`, and otherwise the computed
/// rotation if it is finite in every component, the sentinel if it is not.
pub open spec fn entry(recipe: Recipe, solved: Rotation) -> Rotation {
    if recipe == Recipe::Undefined {
        Rotation::undefined_spec()
    } else {
        solved.settled()
    }
}

/// The output frame: one entry for every recipe. A joint for which `solved` holds
/// nothing gets the sentinel.
pub open spec fn framed(recipes: Seq<Recipe>, solved: Seq<Rotation>) -> Seq<Rotation> {
    Seq::new(
        recipes.len(),
        |j: int|
            if j < solved.len() {
                entry(recipes[j], solved[j])
            } else {
                Rotation::undefined_spec()
            },
    )
}

/// Builds the output frame of a solver from its recipes and, joint by joint, the
/// rotations the kernel computed from them.
pub fn frame(recipes: &[Recipe], solved: &[Rotation]) -> (out: Vec<Rotation>)
    ensures
        out@ == framed(recipes@, solved@),
        forall|j: int|
            0 <= j < out.len() ==> (#[trigger] out[j]).is_finite_spec() != out[j].is_nan_spec(),
{
    let mut out: Vec<Rotation> = Vec::new();
    let mut j: usize = 0;
    while j < recipes.len()
        invariant
            j <= recipes.len(),
            out.len() == j,
            forall|i: int| 0 <= i < j ==> #[trigger] out[i] == framed(recipes@, solved@)[i],
            forall|i: int| 0 <= i < j ==> (#[trigger] out[i]).is_finite_spec() != out[i].is_nan_spec(),
        decreases recipes.len() - j,
    {
        let defined: bool = match recipes[j] {
            Recipe::Undefined => false,
            _ => true,
        };
        let rotation: Rotation = if defined && j < solved.len() {
            solved[j].settle()
        } else {
            Rotation::undefined()
        };
        out.push(rotation);
        j += 1;
    }
    assert(out@ =~= framed(recipes@, solved@));
    out
}

/// No frame holds a rotation that is defined in part. Whatever the kernel computed,
/// every entry is finite in all four components or NaN in all four, and never both.
/// An entry is finite exactly where its joint has a recipe and the kernel computed a
/// finite rotation for it.
pub proof fn lemma_frame_is_binary(recipes: Seq<Recipe>, solved: Seq<Rotation>, joint: int)
    requires
        0 <= joint < recipes.len(),
    ensures
        framed(recipes, solved).len() == recipes.len(),
        framed(recipes, solved)[joint].is_finite_spec() != framed(recipes, solved)[joint].is_nan_spec(),
        framed(recipes, solved)[joint].is_finite_spec() || framed(recipes, solved)[joint]
            == Rotation::undefined_spec(),
        framed(recipes, solved)[joint].is_finite_spec() <==> joint < solved.len() && recipes[joint]
            != Recipe::Undefined && solved[joint].is_finite_spec(),
{
}

} // verus!
