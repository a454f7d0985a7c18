//! Isometries: a rotation followed by a translation.
mod giso3;
mod iso3a;

pub use giso3::GIso3;
pub use iso3a::{Iso3A, lemma_iso3a_classification, lemma_iso3a_iso3_roundtrip};
