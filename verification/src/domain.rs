//! The three domains and what is owed for an input before any solving.
//!
//! A tracker that loses its subject reports fewer points than the domain has, or none.
//! That is an expected condition, not a fault: the answer is then a frame of the
//! domain's size in which every rotation is the all-NaN sentinel.

use crate::face;
use crate::hand;
use crate::pose;
use crate::rotation::Rotation;
use vstd::prelude::*;

verus! {

#[derive(Clone, Copy, Debug, PartialEq, Eq, Structural)]
pub enum Domain {
    Hand,
    Pose,
    Face,
}

/// What to do with an input.
#[derive(Debug)]
pub enum Dispatch {
    /// The input has the domain's size: the solver is to run on it.
    Solve,
    /// The input has another size: this frame is the answer.
    Undefined(Vec<Rotation>),
}

impl Domain {
    /// Number of landmarks the domain's solver takes.
    pub open spec fn landmarks_spec(self) -> int {
        match self {
            Domain::Hand => hand::LANDMARKS as int,
            Domain::Pose => pose::LANDMARKS as int,
            Domain::Face => face::LANDMARKS as int,
        }
    }

    /// Number of rotations in the domain's frame.
    pub open spec fn rotations_spec(self) -> int {
        match self {
            Domain::Hand => hand::ROTATIONS as int,
            Domain::Pose => pose::ROTATIONS as int,
            Domain::Face => face::ROTATIONS as int,
        }
    }

    /// Number of landmarks the domain's solver takes.
    pub fn landmarks(self) -> (count: usize)
        ensures
            count == self.landmarks_spec(),
    {
        match self {
            Domain::Hand => hand::LANDMARKS,
            Domain::Pose => pose::LANDMARKS,
            Domain::Face => face::LANDMARKS,
        }
    }

    /// Number of rotations in the domain's frame.
    pub fn rotations(self) -> (count: usize)
        ensures
            count == self.rotations_spec(),
    {
        match self {
            Domain::Hand => hand::ROTATIONS,
            Domain::Pose => pose::ROTATIONS,
            Domain::Face => face::ROTATIONS,
        }
    }

    /// The frame of this domain in which nothing is known.
    pub fn undefined_frame(self) -> (frame: Vec<Rotation>)
        ensures
            frame@ == undefined(self.rotations_spec()),
    {
        let count: usize = self.rotations();
        let mut frame: Vec<Rotation> = Vec::new();
        while frame.len() < count
            invariant
                frame.len() <= count,
                forall|i: int| 0 <= i < frame.len() ==> #[trigger] frame[i] == Rotation::undefined_spec(),
            decreases count - frame.len(),
        {
            frame.push(Rotation::undefined());
        }
        assert(frame@ =~= undefined(self.rotations_spec()));
        frame
    }
}

/// `count` rotations, each the all-NaN sentinel.
pub open spec fn undefined(count: int) -> Seq<Rotation> {
    Seq::new(count as nat, |i: int| Rotation::undefined_spec())
}

/// `dispatch` is what is owed for an input of `count` points in `domain`: to solve it
/// when the count is the domain's, and the undefined frame of the domain otherwise.
pub open spec fn answers(dispatch: Dispatch, domain: Domain, count: int) -> bool {
    if count == domain.landmarks_spec() {
        dispatch is Solve
    } else {
        dispatch matches Dispatch::Undefined(frame) && frame@ == undefined(domain.rotations_spec())
    }
}

/// Decides what to do with an input of `count` points.
pub fn dispatch(domain: Domain, count: usize) -> (d: Dispatch)
    ensures
        answers(d, domain, count as int),
{
    if count == domain.landmarks() {
        Dispatch::Solve
    } else {
        Dispatch::Undefined(domain.undefined_frame())
    }
}

/// Decides, hand by hand, what to do with a batch of hands.
pub fn hands(counts: &[usize]) -> (out: Vec<Dispatch>)
    ensures
        out.len() == counts.len(),
        forall|i: int| 0 <= i < counts.len() ==> answers(#[trigger] out[i], Domain::Hand, counts[i] as int),
{
    let mut out: Vec<Dispatch> = Vec::new();
    let mut i: usize = 0;
    while i < counts.len()
        invariant
            i <= counts.len(),
            out.len() == i,
            forall|k: int| 0 <= k < i ==> answers(#[trigger] out[k], Domain::Hand, counts[k] as int),
        decreases counts.len() - i,
    {
        out.push(dispatch(Domain::Hand, counts[i]));
        i += 1;
    }
    out
}

/// The domain of each of the four inputs of a combined solve, which are, in this
/// order, a body, a face, a left hand and a right hand. The answers come in the same
/// order.
pub open spec fn holistic_domain(slot: int) -> Domain {
    if slot == 0 {
        Domain::Pose
    } else if slot == 1 {
        Domain::Face
    } else {
        Domain::Hand
    }
}

/// Decides what to do with each of the four inputs of a combined solve.
pub fn holistic(counts: &[usize; 4]) -> (out: Vec<Dispatch>)
    ensures
        out.len() == 4,
        forall|i: int| 0 <= i < 4 ==> answers(#[trigger] out[i], holistic_domain(i), counts[i] as int),
{
    let mut out: Vec<Dispatch> = Vec::new();
    out.push(dispatch(Domain::Pose, counts[0]));
    out.push(dispatch(Domain::Face, counts[1]));
    out.push(dispatch(Domain::Hand, counts[2]));
    out.push(dispatch(Domain::Hand, counts[3]));
    out
}

} // verus!
