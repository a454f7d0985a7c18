//! Element types that never cause padding bytes.
use vstd::prelude::*;
use vstd::layout::size_of;

verus! {

broadcast use vstd::layout::layout_of_primitives;

/// A marker for element types that never cause padding bytes in the types
/// of this crate: the size of such a type is a non-zero multiple of 4 bytes.
pub trait UnpaddedElement: Sized {
    /// The size of `Self` is a non-zero multiple of 4 bytes.
    proof fn lemma_size_is_multiple_of_four()
        ensures
            size_of::<Self>() != 0,
            size_of::<Self>() % 4 == 0,
    ;
}

impl UnpaddedElement for i32 {
    proof fn lemma_size_is_multiple_of_four() {
    }
}

impl UnpaddedElement for u32 {
    proof fn lemma_size_is_multiple_of_four() {
    }
}

impl UnpaddedElement for i64 {
    proof fn lemma_size_is_multiple_of_four() {
    }
}

impl UnpaddedElement for u64 {
    proof fn lemma_size_is_multiple_of_four() {
    }
}

impl UnpaddedElement for i128 {
    proof fn lemma_size_is_multiple_of_four() {
    }
}

impl UnpaddedElement for u128 {
    proof fn lemma_size_is_multiple_of_four() {
    }
}

impl UnpaddedElement for isize {
    proof fn lemma_size_is_multiple_of_four() {
    }
}

impl UnpaddedElement for usize {
    proof fn lemma_size_is_multiple_of_four() {
    }
}

} // verus!
