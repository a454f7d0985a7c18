//! Swizzles: vectors built from chosen components of another vector.
mod gvec4;
