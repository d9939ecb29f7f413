//! From tracked landmarks to joint rotations: the verified part.
//!
//! A tracker reports a hand as 21 points, a body as 33 and a face as 468. A rig wants
//! one rotation per joint. Getting from one to the other takes geometry in floating
//! point, which a geometry kernel does, and a good many decisions that have nothing to
//! do with floating point: which landmarks a measurement takes, which joint it belongs
//! to, which way round a sign goes, what to answer when a detection is missing, and what
//! to hand out when a computed rotation is not a number. Those decisions are made here,
//! and every one of them is proved.
//!
//! Numbers cross the boundary as the bit patterns of single-precision values:
//!
//! - [`scalar`] reads such a pattern: NaN or not, finite or not, below zero, smaller
//!   than another, and negation.
//! - [`landmark`] holds points and the change of axes from tracker to rig.
//! - [`rotation`] holds quaternions and the all-NaN sentinel for "not known".
//! - [`recipe`] describes how a joint's rotation is to be computed, and builds the
//!   output frame once the kernel has computed it.
//! - [`hand`], [`pose`] and [`face`] are the three solvers. Each turns what was
//!   measured into one recipe per joint.
//! - [`domain`] decides whether an input is solved at all.

pub mod domain;
pub mod face;
pub mod hand;
pub mod landmark;
pub mod pose;
pub mod recipe;
pub mod rotation;
pub mod scalar;
