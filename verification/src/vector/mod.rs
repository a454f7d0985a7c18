//! Vectors.
mod gvec2;
mod gvec3;
mod gvec4;
mod gvec4_laws;
mod gvec4_num;
mod gvec4_bits;
mod gvec4_scalar;
mod vec3a;
mod vec4a;

pub use gvec2::{GVec2, gvec2};
pub use gvec3::{GVec3, gvec3};
pub use gvec4::{GVec4, gvec4};
pub use gvec4_laws::{
    lemma_clamp, lemma_distances, lemma_div_rem, lemma_div_rem_euclid, lemma_dot_symmetric,
    lemma_exact_when_in_range, lemma_min_max, lemma_min_max_element, lemma_signum_times_abs,
    lemma_wrap_and_saturate_in_range, lemma_wrapping_sub_undoes_wrapping_add,
};
pub use gvec4_num::{
    spec_all_some, spec_dist, spec_dot, spec_dot_fits, spec_from_vals, spec_max_elem, spec_min_elem,
    spec_sub_vec,
};
pub use gvec4_bits::{lemma_mask_logic, spec_euclid_fits, spec_shift_fits};
pub use gvec4_scalar::{
    lemma_i8_scalar_mul, lemma_i16_scalar_mul, lemma_i32_scalar_mul, lemma_i64_scalar_mul,
    lemma_i128_scalar_mul, lemma_isize_scalar_mul, lemma_u8_scalar_mul, lemma_u16_scalar_mul,
    lemma_u32_scalar_mul, lemma_u64_scalar_mul, lemma_u128_scalar_mul, lemma_usize_scalar_mul,
};
pub use vec3a::{Vec3A, lemma_vec3a_neg, lemma_vec3a_neg_flips_signs};
pub use vec4a::{Vec4A, lemma_vec4a_neg, lemma_vec4a_neg_flips_signs};
