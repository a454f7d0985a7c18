//! Affine transformations for representing translation, rotation, scaling, and shearing.
mod affine2a;
mod affine3a;
mod gaffine2;
mod gaffine3;

pub use affine2a::Affine2A;
pub use affine3a::{Affine3A, lemma_affine3a_classification, lemma_affine3a_cols_array_injective};
pub use gaffine2::{GAffine2, lemma_gaffine2_cols_array_injective};
pub use gaffine3::{GAffine3, lemma_gaffine3_cols_array_injective};
