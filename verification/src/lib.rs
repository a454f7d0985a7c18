//! Linear algebra for games and graphics: SIMD-aligned matrices and affine
//! transforms whose components are IEEE-754 binary32 values, held by their
//! bit encodings, together with their element-wise classification and the
//! structural operations (construction, columns, rows, transposition) that
//! move components around without computing on them.
#![allow(unused_imports)]

pub mod bits;
pub mod vector;
pub mod matrix;
pub mod affine;
pub mod rotation;
pub mod isometry;
pub mod convert;
pub mod text;
pub mod deref;
pub mod unpadded;

pub use unpadded::UnpaddedElement;
pub mod swizzles;
pub mod num;
pub mod bitwise;
