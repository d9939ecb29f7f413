//! A joint rotation: the four components of a quaternion, each a single-precision bit
//! pattern, in the order x, y, z, w.
//!
//! A rotation handed out by a solver is in one of two states. It is *defined* when all
//! four components are finite, and *undefined* when it is the all-NaN sentinel. The
//! solvers never hand out anything in between.

use crate::scalar;
use vstd::prelude::*;

verus! {

#[derive(Clone, Copy, Debug, PartialEq, Eq, Structural)]
pub struct Rotation {
    pub x: u32,
    pub y: u32,
    pub z: u32,
    pub w: u32,
}

impl Rotation {
    /// The sentinel for "no rotation known": every component the quiet NaN.
    pub open spec fn undefined_spec() -> Rotation {
        Rotation { x: scalar::NAN, y: scalar::NAN, z: scalar::NAN, w: scalar::NAN }
    }

    /// All four components are finite numbers.
    pub open spec fn is_finite_spec(self) -> bool {
        &&& scalar::is_finite_spec(self.x)
        &&& scalar::is_finite_spec(self.y)
        &&& scalar::is_finite_spec(self.z)
        &&& scalar::is_finite_spec(self.w)
    }

    /// All four components are NaN.
    pub open spec fn is_nan_spec(self) -> bool {
        &&& scalar::is_nan_spec(self.x)
        &&& scalar::is_nan_spec(self.y)
        &&& scalar::is_nan_spec(self.z)
        &&& scalar::is_nan_spec(self.w)
    }

    /// The rotation itself when it is finite, the sentinel otherwise.
    pub open spec fn settled(self) -> Rotation {
        if self.is_finite_spec() {
            self
        } else {
            Self::undefined_spec()
        }
    }

    #[verifier::when_used_as_spec(undefined_spec)]
    pub fn undefined() -> (r: Rotation)
        ensures
            r == Self::undefined_spec(),
            r.is_nan_spec(),
            !r.is_finite_spec(),
    {
        Rotation { x: scalar::NAN, y: scalar::NAN, z: scalar::NAN, w: scalar::NAN }
    }

    #[verifier::when_used_as_spec(is_finite_spec)]
    pub fn is_finite(self) -> (r: bool)
        ensures
            r == self.is_finite_spec(),
    {
        scalar::is_finite(self.x) && scalar::is_finite(self.y) && scalar::is_finite(self.z)
            && scalar::is_finite(self.w)
    }

    #[verifier::when_used_as_spec(is_nan_spec)]
    pub fn is_nan(self) -> (r: bool)
        ensures
            r == self.is_nan_spec(),
    {
        scalar::is_nan(self.x) && scalar::is_nan(self.y) && scalar::is_nan(self.z)
            && scalar::is_nan(self.w)
    }

    /// Brings a computed rotation into one of the two states: a rotation with an
    /// infinite or NaN component anywhere becomes the sentinel, so that no rotation is
    /// ever handed out half defined.
    pub fn settle(self) -> (r: Rotation)
        ensures
            r == self.settled(),
            r.is_finite_spec() || r == Self::undefined_spec(),
            r.is_finite_spec() != r.is_nan_spec(),
    {
        if self.is_finite() {
            self
        } else {
            Self::undefined()
        }
    }

    /// The rotation whose components are `a[0]`, `a[1]`, `a[2]`, `a[3]`.
    pub fn from_array(a: [u32; 4]) -> (r: Rotation)
        ensures
            r == (Rotation { x: a[0], y: a[1], z: a[2], w: a[3] }),
    {
        Rotation { x: a[0], y: a[1], z: a[2], w: a[3] }
    }

    /// The components in the order x, y, z, w.
    pub fn to_array(self) -> (a: [u32; 4])
        ensures
            a@ == seq![self.x, self.y, self.z, self.w],
    {
        [self.x, self.y, self.z, self.w]
    }
}

/// Settling leaves every rotation either defined or the sentinel, never both, and
/// changes nothing that is already in one of the two states.
pub proof fn lemma_settled_is_binary(r: Rotation)
    ensures
        r.settled().is_finite_spec() != (r.settled() == Rotation::undefined_spec()),
        r.settled().settled() == r.settled(),
        r.is_finite_spec() ==> r.settled() == r,
{
}

} // verus!
