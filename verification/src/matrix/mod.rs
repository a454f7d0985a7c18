//! Column-major matrices.
mod gmat2;
mod gmat3;
mod gmat4;
mod mat2a;
mod mat3a;
mod mat4a;

pub use gmat2::{
    GMat2, gmat2, lemma_gmat2_cols_array_injective, lemma_gmat2_row_is_transposed_col,
    lemma_gmat2_transpose_involutive, minor_index,
};
pub use gmat3::{
    GMat3, gmat3, lemma_gmat3_cols_array_injective, lemma_gmat3_row_is_transposed_col,
    lemma_gmat3_transpose_involutive,
};
pub use gmat4::{
    GMat4, gmat4, lemma_gmat4_cols_array_injective, lemma_gmat4_row_is_transposed_col,
    lemma_gmat4_transpose_involutive,
};
pub use mat2a::{
    Mat2A, lemma_mat2a_classification, lemma_mat2a_neg, lemma_mat2a_neg_flips_signs, mat2a,
    spec_vec2_abs, spec_vec2_eq, spec_vec2_is_finite, spec_vec2_is_nan,
};
pub use mat3a::{
    Mat3A, lemma_mat3a_classification, lemma_mat3a_cols_array_injective, lemma_mat3a_eq,
    lemma_mat3a_neg, lemma_mat3a_neg_flips_signs, lemma_mat3a_row_is_transposed_col,
    lemma_mat3a_transpose_involutive, mat3a,
};
pub use mat4a::{
    Mat4A, lemma_mat4a_classification, lemma_mat4a_cols_array_injective, lemma_mat4a_eq,
    lemma_mat4a_neg, lemma_mat4a_neg_flips_signs, lemma_mat4a_row_is_transposed_col,
    lemma_mat4a_transpose_involutive, mat4a, shuffle,
};
