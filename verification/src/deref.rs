//! Column views of matrices and affine transforms.
use vstd::prelude::*;

verus! {

/// Three columns, named as the axes they hold.
pub struct Cols3<V> {
    /// The first column.
    pub x_axis: V,
    /// The second column.
    pub y_axis: V,
    /// The third column.
    pub z_axis: V,
}

/// Four columns, named as the axes they hold.
pub struct Cols4<V> {
    /// The first column.
    pub x_axis: V,
    /// The second column.
    pub y_axis: V,
    /// The third column.
    pub z_axis: V,
    /// The fourth column.
    pub w_axis: V,
}

} // verus!
