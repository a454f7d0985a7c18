//! Rotations.
mod gquat;
mod grot2;
mod rot3a;

pub use gquat::{GQuat, gquat};
pub use grot2::{GRot2, grot2};
pub use rot3a::{Rot3A, lemma_rot3a_classification, lemma_rot3a_quat_roundtrip, rot3a};
