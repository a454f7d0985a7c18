//! Swizzles of 4D vectors: vectors built from chosen components of another.
use vstd::prelude::*;

use crate::vector::{GVec2, GVec3, GVec4};

verus! {

impl<T: Copy> GVec4<T> {
    /// Returns the components `xx` of `self`, in that order.
    pub fn xx(self) -> (r: GVec2<T>)
        ensures
            r == (GVec2 { x: self.x, y: self.x }),
    {
        GVec2::new(self.x, self.x)
    }

    /// Returns the components `xy` of `self`, in that order.
    pub fn xy(self) -> (r: GVec2<T>)
        ensures
            r == (GVec2 { x: self.x, y: self.y }),
    {
        GVec2::new(self.x, self.y)
    }

    /// Returns `self` with the components `xy` replaced, in order, by those of `rhs`.
    pub fn with_xy(self, rhs: GVec2<T>) -> (r: GVec4<T>)
        ensures
            r == (GVec4 { x: rhs.x, y: rhs.y, z: self.z, w: self.w }),
    {
        GVec4::new(rhs.x, rhs.y, self.z, self.w)
    }

    /// Returns the components `xz` of `self`, in that order.
    pub fn xz(self) -> (r: GVec2<T>)
        ensures
            r == (GVec2 { x: self.x, y: self.z }),
    {
        GVec2::new(self.x, self.z)
    }

    /// Returns `self` with the components `xz` replaced, in order, by those of `rhs`.
    pub fn with_xz(self, rhs: GVec2<T>) -> (r: GVec4<T>)
        ensures
            r == (GVec4 { x: rhs.x, y: self.y, z: rhs.y, w: self.w }),
    {
        GVec4::new(rhs.x, self.y, rhs.y, self.w)
    }

    /// Returns the components `xw` of `self`, in that order.
    pub fn xw(self) -> (r: GVec2<T>)
        ensures
            r == (GVec2 { x: self.x, y: self.w }),
    {
        GVec2::new(self.x, self.w)
    }

    /// Returns `self` with the components `xw` replaced, in order, by those of `rhs`.
    pub fn with_xw(self, rhs: GVec2<T>) -> (r: GVec4<T>)
        ensures
            r == (GVec4 { x: rhs.x, y: self.y, z: self.z, w: rhs.y }),
    {
        GVec4::new(rhs.x, self.y, self.z, rhs.y)
    }

    /// Returns the components `yx` of `self`, in that order.
    pub fn yx(self) -> (r: GVec2<T>)
        ensures
            r == (GVec2 { x: self.y, y: self.x }),
    {
        GVec2::new(self.y, self.x)
    }

    /// Returns `self` with the components `yx` replaced, in order, by those of `rhs`.
    pub fn with_yx(self, rhs: GVec2<T>) -> (r: GVec4<T>)
        ensures
            r == (GVec4 { x: rhs.y, y: rhs.x, z: self.z, w: self.w }),
    {
        GVec4::new(rhs.y, rhs.x, self.z, self.w)
    }

    /// Returns the components `yy` of `self`, in that order.
    pub fn yy(self) -> (r: GVec2<T>)
        ensures
            r == (GVec2 { x: self.y, y: self.y }),
    {
        GVec2::new(self.y, self.y)
    }

    /// Returns the components `yz` of `self`, in that order.
    pub fn yz(self) -> (r: GVec2<T>)
        ensures
            r == (GVec2 { x: self.y, y: self.z }),
    {
        GVec2::new(self.y, self.z)
    }

    /// Returns `self` with the components `yz` replaced, in order, by those of `rhs`.
    pub fn with_yz(self, rhs: GVec2<T>) -> (r: GVec4<T>)
        ensures
            r == (GVec4 { x: self.x, y: rhs.x, z: rhs.y, w: self.w }),
    {
        GVec4::new(self.x, rhs.x, rhs.y, self.w)
    }

    /// Returns the components `yw` of `self`, in that order.
    pub fn yw(self) -> (r: GVec2<T>)
        ensures
            r == (GVec2 { x: self.y, y: self.w }),
    {
        GVec2::new(self.y, self.w)
    }

    /// Returns `self` with the components `yw` replaced, in order, by those of `rhs`.
    pub fn with_yw(self, rhs: GVec2<T>) -> (r: GVec4<T>)
        ensures
            r == (GVec4 { x: self.x, y: rhs.x, z: self.z, w: rhs.y }),
    {
        GVec4::new(self.x, rhs.x, self.z, rhs.y)
    }

    /// Returns the components `zx` of `self`, in that order.
    pub fn zx(self) -> (r: GVec2<T>)
        ensures
            r == (GVec2 { x: self.z, y: self.x }),
    {
        GVec2::new(self.z, self.x)
    }

    /// Returns `self` with the components `zx` replaced, in order, by those of `rhs`.
    pub fn with_zx(self, rhs: GVec2<T>) -> (r: GVec4<T>)
        ensures
            r == (GVec4 { x: rhs.y, y: self.y, z: rhs.x, w: self.w }),
    {
        GVec4::new(rhs.y, self.y, rhs.x, self.w)
    }

    /// Returns the components `zy` of `self`, in that order.
    pub fn zy(self) -> (r: GVec2<T>)
        ensures
            r == (GVec2 { x: self.z, y: self.y }),
    {
        GVec2::new(self.z, self.y)
    }

    /// Returns `self` with the components `zy` replaced, in order, by those of `rhs`.
    pub fn with_zy(self, rhs: GVec2<T>) -> (r: GVec4<T>)
        ensures
            r == (GVec4 { x: self.x, y: rhs.y, z: rhs.x, w: self.w }),
    {
        GVec4::new(self.x, rhs.y, rhs.x, self.w)
    }

    /// Returns the components `zz` of `self`, in that order.
    pub fn zz(self) -> (r: GVec2<T>)
        ensures
            r == (GVec2 { x: self.z, y: self.z }),
    {
        GVec2::new(self.z, self.z)
    }

    /// Returns the components `zw` of `self`, in that order.
    pub fn zw(self) -> (r: GVec2<T>)
        ensures
            r == (GVec2 { x: self.z, y: self.w }),
    {
        GVec2::new(self.z, self.w)
    }

    /// Returns `self` with the components `zw` replaced, in order, by those of `rhs`.
    pub fn with_zw(self, rhs: GVec2<T>) -> (r: GVec4<T>)
        ensures
            r == (GVec4 { x: self.x, y: self.y, z: rhs.x, w: rhs.y }),
    {
        GVec4::new(self.x, self.y, rhs.x, rhs.y)
    }

    /// Returns the components `wx` of `self`, in that order.
    pub fn wx(self) -> (r: GVec2<T>)
        ensures
            r == (GVec2 { x: self.w, y: self.x }),
    {
        GVec2::new(self.w, self.x)
    }

    /// Returns `self` with the components `wx` replaced, in order, by those of `rhs`.
    pub fn with_wx(self, rhs: GVec2<T>) -> (r: GVec4<T>)
        ensures
            r == (GVec4 { x: rhs.y, y: self.y, z: self.z, w: rhs.x }),
    {
        GVec4::new(rhs.y, self.y, self.z, rhs.x)
    }

    /// Returns the components `wy` of `self`, in that order.
    pub fn wy(self) -> (r: GVec2<T>)
        ensures
            r == (GVec2 { x: self.w, y: self.y }),
    {
        GVec2::new(self.w, self.y)
    }

    /// Returns `self` with the components `wy` replaced, in order, by those of `rhs`.
    pub fn with_wy(self, rhs: GVec2<T>) -> (r: GVec4<T>)
        ensures
            r == (GVec4 { x: self.x, y: rhs.y, z: self.z, w: rhs.x }),
    {
        GVec4::new(self.x, rhs.y, self.z, rhs.x)
    }

    /// Returns the components `wz` of `self`, in that order.
    pub fn wz(self) -> (r: GVec2<T>)
        ensures
            r == (GVec2 { x: self.w, y: self.z }),
    {
        GVec2::new(self.w, self.z)
    }

    /// Returns `self` with the components `wz` replaced, in order, by those of `rhs`.
    pub fn with_wz(self, rhs: GVec2<T>) -> (r: GVec4<T>)
        ensures
            r == (GVec4 { x: self.x, y: self.y, z: rhs.y, w: rhs.x }),
    {
        GVec4::new(self.x, self.y, rhs.y, rhs.x)
    }

    /// Returns the components `ww` of `self`, in that order.
    pub fn ww(self) -> (r: GVec2<T>)
        ensures
            r == (GVec2 { x: self.w, y: self.w }),
    {
        GVec2::new(self.w, self.w)
    }

    /// Returns the components `xxx` of `self`, in that order.
    pub fn xxx(self) -> (r: GVec3<T>)
        ensures
            r == (GVec3 { x: self.x, y: self.x, z: self.x }),
    {
        GVec3::new(self.x, self.x, self.x)
    }

    /// Returns the components `xxy` of `self`, in that order.
    pub fn xxy(self) -> (r: GVec3<T>)
        ensures
            r == (GVec3 { x: self.x, y: self.x, z: self.y }),
    {
        GVec3::new(self.x, self.x, self.y)
    }

    /// Returns the components `xxz` of `self`, in that order.
    pub fn xxz(self) -> (r: GVec3<T>)
        ensures
            r == (GVec3 { x: self.x, y: self.x, z: self.z }),
    {
        GVec3::new(self.x, self.x, self.z)
    }

    /// Returns the components `xxw` of `self`, in that order.
    pub fn xxw(self) -> (r: GVec3<T>)
        ensures
            r == (GVec3 { x: self.x, y: self.x, z: self.w }),
    {
        GVec3::new(self.x, self.x, self.w)
    }

    /// Returns the components `xyx` of `self`, in that order.
    pub fn xyx(self) -> (r: GVec3<T>)
        ensures
            r == (GVec3 { x: self.x, y: self.y, z: self.x }),
    {
        GVec3::new(self.x, self.y, self.x)
    }

    /// Returns the components `xyy` of `self`, in that order.
    pub fn xyy(self) -> (r: GVec3<T>)
        ensures
            r == (GVec3 { x: self.x, y: self.y, z: self.y }),
    {
        GVec3::new(self.x, self.y, self.y)
    }

    /// Returns the components `xyz` of `self`, in that order.
    pub fn xyz(self) -> (r: GVec3<T>)
        ensures
            r == (GVec3 { x: self.x, y: self.y, z: self.z }),
    {
        GVec3::new(self.x, self.y, self.z)
    }

    /// Returns `self` with the components `xyz` replaced, in order, by those of `rhs`.
    pub fn with_xyz(self, rhs: GVec3<T>) -> (r: GVec4<T>)
        ensures
            r == (GVec4 { x: rhs.x, y: rhs.y, z: rhs.z, w: self.w }),
    {
        GVec4::new(rhs.x, rhs.y, rhs.z, self.w)
    }

    /// Returns the components `xyw` of `self`, in that order.
    pub fn xyw(self) -> (r: GVec3<T>)
        ensures
            r == (GVec3 { x: self.x, y: self.y, z: self.w }),
    {
        GVec3::new(self.x, self.y, self.w)
    }

    /// Returns `self` with the components `xyw` replaced, in order, by those of `rhs`.
    pub fn with_xyw(self, rhs: GVec3<T>) -> (r: GVec4<T>)
        ensures
            r == (GVec4 { x: rhs.x, y: rhs.y, z: self.z, w: rhs.z }),
    {
        GVec4::new(rhs.x, rhs.y, self.z, rhs.z)
    }

    /// Returns the components `xzx` of `self`, in that order.
    pub fn xzx(self) -> (r: GVec3<T>)
        ensures
            r == (GVec3 { x: self.x, y: self.z, z: self.x }),
    {
        GVec3::new(self.x, self.z, self.x)
    }

    /// Returns the components `xzy` of `self`, in that order.
    pub fn xzy(self) -> (r: GVec3<T>)
        ensures
            r == (GVec3 { x: self.x, y: self.z, z: self.y }),
    {
        GVec3::new(self.x, self.z, self.y)
    }

    /// Returns `self` with the components `xzy` replaced, in order, by those of `rhs`.
    pub fn with_xzy(self, rhs: GVec3<T>) -> (r: GVec4<T>)
        ensures
            r == (GVec4 { x: rhs.x, y: rhs.z, z: rhs.y, w: self.w }),
    {
        GVec4::new(rhs.x, rhs.z, rhs.y, self.w)
    }

    /// Returns the components `xzz` of `self`, in that order.
    pub fn xzz(self) -> (r: GVec3<T>)
        ensures
            r == (GVec3 { x: self.x, y: self.z, z: self.z }),
    {
        GVec3::new(self.x, self.z, self.z)
    }

    /// Returns the components `xzw` of `self`, in that order.
    pub fn xzw(self) -> (r: GVec3<T>)
        ensures
            r == (GVec3 { x: self.x, y: self.z, z: self.w }),
    {
        GVec3::new(self.x, self.z, self.w)
    }

    /// Returns `self` with the components `xzw` replaced, in order, by those of `rhs`.
    pub fn with_xzw(self, rhs: GVec3<T>) -> (r: GVec4<T>)
        ensures
            r == (GVec4 { x: rhs.x, y: self.y, z: rhs.y, w: rhs.z }),
    {
        GVec4::new(rhs.x, self.y, rhs.y, rhs.z)
    }

    /// Returns the components `xwx` of `self`, in that order.
    pub fn xwx(self) -> (r: GVec3<T>)
        ensures
            r == (GVec3 { x: self.x, y: self.w, z: self.x }),
    {
        GVec3::new(self.x, self.w, self.x)
    }

    /// Returns the components `xwy` of `self`, in that order.
    pub fn xwy(self) -> (r: GVec3<T>)
        ensures
            r == (GVec3 { x: self.x, y: self.w, z: self.y }),
    {
        GVec3::new(self.x, self.w, self.y)
    }

    /// Returns `self` with the components `xwy` replaced, in order, by those of `rhs`.
    pub fn with_xwy(self, rhs: GVec3<T>) -> (r: GVec4<T>)
        ensures
            r == (GVec4 { x: rhs.x, y: rhs.z, z: self.z, w: rhs.y }),
    {
        GVec4::new(rhs.x, rhs.z, self.z, rhs.y)
    }

    /// Returns the components `xwz` of `self`, in that order.
    pub fn xwz(self) -> (r: GVec3<T>)
        ensures
            r == (GVec3 { x: self.x, y: self.w, z: self.z }),
    {
        GVec3::new(self.x, self.w, self.z)
    }

    /// Returns `self` with the components `xwz` replaced, in order, by those of `rhs`.
    pub fn with_xwz(self, rhs: GVec3<T>) -> (r: GVec4<T>)
        ensures
            r == (GVec4 { x: rhs.x, y: self.y, z: rhs.z, w: rhs.y }),
    {
        GVec4::new(rhs.x, self.y, rhs.z, rhs.y)
    }

    /// Returns the components `xww` of `self`, in that order.
    pub fn xww(self) -> (r: GVec3<T>)
        ensures
            r == (GVec3 { x: self.x, y: self.w, z: self.w }),
    {
        GVec3::new(self.x, self.w, self.w)
    }

    /// Returns the components `yxx` of `self`, in that order.
    pub fn yxx(self) -> (r: GVec3<T>)
        ensures
            r == (GVec3 { x: self.y, y: self.x, z: self.x }),
    {
        GVec3::new(self.y, self.x, self.x)
    }

    /// Returns the components `yxy` of `self`, in that order.
    pub fn yxy(self) -> (r: GVec3<T>)
        ensures
            r == (GVec3 { x: self.y, y: self.x, z: self.y }),
    {
        GVec3::new(self.y, self.x, self.y)
    }

    /// Returns the components `yxz` of `self`, in that order.
    pub fn yxz(self) -> (r: GVec3<T>)
        ensures
            r == (GVec3 { x: self.y, y: self.x, z: self.z }),
    {
        GVec3::new(self.y, self.x, self.z)
    }

    /// Returns `self` with the components `yxz` replaced, in order, by those of `rhs`.
    pub fn with_yxz(self, rhs: GVec3<T>) -> (r: GVec4<T>)
        ensures
            r == (GVec4 { x: rhs.y, y: rhs.x, z: rhs.z, w: self.w }),
    {
        GVec4::new(rhs.y, rhs.x, rhs.z, self.w)
    }

    /// Returns the components `yxw` of `self`, in that order.
    pub fn yxw(self) -> (r: GVec3<T>)
        ensures
            r == (GVec3 { x: self.y, y: self.x, z: self.w }),
    {
        GVec3::new(self.y, self.x, self.w)
    }

    /// Returns `self` with the components `yxw` replaced, in order, by those of `rhs`.
    pub fn with_yxw(self, rhs: GVec3<T>) -> (r: GVec4<T>)
        ensures
            r == (GVec4 { x: rhs.y, y: rhs.x, z: self.z, w: rhs.z }),
    {
        GVec4::new(rhs.y, rhs.x, self.z, rhs.z)
    }

    /// Returns the components `yyx` of `self`, in that order.
    pub fn yyx(self) -> (r: GVec3<T>)
        ensures
            r == (GVec3 { x: self.y, y: self.y, z: self.x }),
    {
        GVec3::new(self.y, self.y, self.x)
    }

    /// Returns the components `yyy` of `self`, in that order.
    pub fn yyy(self) -> (r: GVec3<T>)
        ensures
            r == (GVec3 { x: self.y, y: self.y, z: self.y }),
    {
        GVec3::new(self.y, self.y, self.y)
    }

    /// Returns the components `yyz` of `self`, in that order.
    pub fn yyz(self) -> (r: GVec3<T>)
        ensures
            r == (GVec3 { x: self.y, y: self.y, z: self.z }),
    {
        GVec3::new(self.y, self.y, self.z)
    }

    /// Returns the components `yyw` of `self`, in that order.
    pub fn yyw(self) -> (r: GVec3<T>)
        ensures
            r == (GVec3 { x: self.y, y: self.y, z: self.w }),
    {
        GVec3::new(self.y, self.y, self.w)
    }

    /// Returns the components `yzx` of `self`, in that order.
    pub fn yzx(self) -> (r: GVec3<T>)
        ensures
            r == (GVec3 { x: self.y, y: self.z, z: self.x }),
    {
        GVec3::new(self.y, self.z, self.x)
    }

    /// Returns `self` with the components `yzx` replaced, in order, by those of `rhs`.
    pub fn with_yzx(self, rhs: GVec3<T>) -> (r: GVec4<T>)
        ensures
            r == (GVec4 { x: rhs.z, y: rhs.x, z: rhs.y, w: self.w }),
    {
        GVec4::new(rhs.z, rhs.x, rhs.y, self.w)
    }

    /// Returns the components `yzy` of `self`, in that order.
    pub fn yzy(self) -> (r: GVec3<T>)
        ensures
            r == (GVec3 { x: self.y, y: self.z, z: self.y }),
    {
        GVec3::new(self.y, self.z, self.y)
    }

    /// Returns the components `yzz` of `self`, in that order.
    pub fn yzz(self) -> (r: GVec3<T>)
        ensures
            r == (GVec3 { x: self.y, y: self.z, z: self.z }),
    {
        GVec3::new(self.y, self.z, self.z)
    }

    /// Returns the components `yzw` of `self`, in that order.
    pub fn yzw(self) -> (r: GVec3<T>)
        ensures
            r == (GVec3 { x: self.y, y: self.z, z: self.w }),
    {
        GVec3::new(self.y, self.z, self.w)
    }

    /// Returns `self` with the components `yzw` replaced, in order, by those of `rhs`.
    pub fn with_yzw(self, rhs: GVec3<T>) -> (r: GVec4<T>)
        ensures
            r == (GVec4 { x: self.x, y: rhs.x, z: rhs.y, w: rhs.z }),
    {
        GVec4::new(self.x, rhs.x, rhs.y, rhs.z)
    }

    /// Returns the components `ywx` of `self`, in that order.
    pub fn ywx(self) -> (r: GVec3<T>)
        ensures
            r == (GVec3 { x: self.y, y: self.w, z: self.x }),
    {
        GVec3::new(self.y, self.w, self.x)
    }

    /// Returns `self` with the components `ywx` replaced, in order, by those of `rhs`.
    pub fn with_ywx(self, rhs: GVec3<T>) -> (r: GVec4<T>)
        ensures
            r == (GVec4 { x: rhs.z, y: rhs.x, z: self.z, w: rhs.y }),
    {
        GVec4::new(rhs.z, rhs.x, self.z, rhs.y)
    }

    /// Returns the components `ywy` of `self`, in that order.
    pub fn ywy(self) -> (r: GVec3<T>)
        ensures
            r == (GVec3 { x: self.y, y: self.w, z: self.y }),
    {
        GVec3::new(self.y, self.w, self.y)
    }

    /// Returns the components `ywz` of `self`, in that order.
    pub fn ywz(self) -> (r: GVec3<T>)
        ensures
            r == (GVec3 { x: self.y, y: self.w, z: self.z }),
    {
        GVec3::new(self.y, self.w, self.z)
    }

    /// Returns `self` with the components `ywz` replaced, in order, by those of `rhs`.
    pub fn with_ywz(self, rhs: GVec3<T>) -> (r: GVec4<T>)
        ensures
            r == (GVec4 { x: self.x, y: rhs.x, z: rhs.z, w: rhs.y }),
    {
        GVec4::new(self.x, rhs.x, rhs.z, rhs.y)
    }

    /// Returns the components `yww` of `self`, in that order.
    pub fn yww(self) -> (r: GVec3<T>)
        ensures
            r == (GVec3 { x: self.y, y: self.w, z: self.w }),
    {
        GVec3::new(self.y, self.w, self.w)
    }

    /// Returns the components `zxx` of `self`, in that order.
    pub fn zxx(self) -> (r: GVec3<T>)
        ensures
            r == (GVec3 { x: self.z, y: self.x, z: self.x }),
    {
        GVec3::new(self.z, self.x, self.x)
    }

    /// Returns the components `zxy` of `self`, in that order.
    pub fn zxy(self) -> (r: GVec3<T>)
        ensures
            r == (GVec3 { x: self.z, y: self.x, z: self.y }),
    {
        GVec3::new(self.z, self.x, self.y)
    }

    /// Returns `self` with the components `zxy` replaced, in order, by those of `rhs`.
    pub fn with_zxy(self, rhs: GVec3<T>) -> (r: GVec4<T>)
        ensures
            r == (GVec4 { x: rhs.y, y: rhs.z, z: rhs.x, w: self.w }),
    {
        GVec4::new(rhs.y, rhs.z, rhs.x, self.w)
    }

    /// Returns the components `zxz` of `self`, in that order.
    pub fn zxz(self) -> (r: GVec3<T>)
        ensures
            r == (GVec3 { x: self.z, y: self.x, z: self.z }),
    {
        GVec3::new(self.z, self.x, self.z)
    }

    /// Returns the components `zxw` of `self`, in that order.
    pub fn zxw(self) -> (r: GVec3<T>)
        ensures
            r == (GVec3 { x: self.z, y: self.x, z: self.w }),
    {
        GVec3::new(self.z, self.x, self.w)
    }

    /// Returns `self` with the components `zxw` replaced, in order, by those of `rhs`.
    pub fn with_zxw(self, rhs: GVec3<T>) -> (r: GVec4<T>)
        ensures
            r == (GVec4 { x: rhs.y, y: self.y, z: rhs.x, w: rhs.z }),
    {
        GVec4::new(rhs.y, self.y, rhs.x, rhs.z)
    }

    /// Returns the components `zyx` of `self`, in that order.
    pub fn zyx(self) -> (r: GVec3<T>)
        ensures
            r == (GVec3 { x: self.z, y: self.y, z: self.x }),
    {
        GVec3::new(self.z, self.y, self.x)
    }

    /// Returns `self` with the components `zyx` replaced, in order, by those of `rhs`.
    pub fn with_zyx(self, rhs: GVec3<T>) -> (r: GVec4<T>)
        ensures
            r == (GVec4 { x: rhs.z, y: rhs.y, z: rhs.x, w: self.w }),
    {
        GVec4::new(rhs.z, rhs.y, rhs.x, self.w)
    }

    /// Returns the components `zyy` of `self`, in that order.
    pub fn zyy(self) -> (r: GVec3<T>)
        ensures
            r == (GVec3 { x: self.z, y: self.y, z: self.y }),
    {
        GVec3::new(self.z, self.y, self.y)
    }

    /// Returns the components `zyz` of `self`, in that order.
    pub fn zyz(self) -> (r: GVec3<T>)
        ensures
            r == (GVec3 { x: self.z, y: self.y, z: self.z }),
    {
        GVec3::new(self.z, self.y, self.z)
    }

    /// Returns the components `zyw` of `self`, in that order.
    pub fn zyw(self) -> (r: GVec3<T>)
        ensures
            r == (GVec3 { x: self.z, y: self.y, z: self.w }),
    {
        GVec3::new(self.z, self.y, self.w)
    }

    /// Returns `self` with the components `zyw` replaced, in order, by those of `rhs`.
    pub fn with_zyw(self, rhs: GVec3<T>) -> (r: GVec4<T>)
        ensures
            r == (GVec4 { x: self.x, y: rhs.y, z: rhs.x, w: rhs.z }),
    {
        GVec4::new(self.x, rhs.y, rhs.x, rhs.z)
    }

    /// Returns the components `zzx` of `self`, in that order.
    pub fn zzx(self) -> (r: GVec3<T>)
        ensures
            r == (GVec3 { x: self.z, y: self.z, z: self.x }),
    {
        GVec3::new(self.z, self.z, self.x)
    }

    /// Returns the components `zzy` of `self`, in that order.
    pub fn zzy(self) -> (r: GVec3<T>)
        ensures
            r == (GVec3 { x: self.z, y: self.z, z: self.y }),
    {
        GVec3::new(self.z, self.z, self.y)
    }

    /// Returns the components `zzz` of `self`, in that order.
    pub fn zzz(self) -> (r: GVec3<T>)
        ensures
            r == (GVec3 { x: self.z, y: self.z, z: self.z }),
    {
        GVec3::new(self.z, self.z, self.z)
    }

    /// Returns the components `zzw` of `self`, in that order.
    pub fn zzw(self) -> (r: GVec3<T>)
        ensures
            r == (GVec3 { x: self.z, y: self.z, z: self.w }),
    {
        GVec3::new(self.z, self.z, self.w)
    }

    /// Returns the components `zwx` of `self`, in that order.
    pub fn zwx(self) -> (r: GVec3<T>)
        ensures
            r == (GVec3 { x: self.z, y: self.w, z: self.x }),
    {
        GVec3::new(self.z, self.w, self.x)
    }

    /// Returns `self` with the components `zwx` replaced, in order, by those of `rhs`.
    pub fn with_zwx(self, rhs: GVec3<T>) -> (r: GVec4<T>)
        ensures
            r == (GVec4 { x: rhs.z, y: self.y, z: rhs.x, w: rhs.y }),
    {
        GVec4::new(rhs.z, self.y, rhs.x, rhs.y)
    }

    /// Returns the components `zwy` of `self`, in that order.
    pub fn zwy(self) -> (r: GVec3<T>)
        ensures
            r == (GVec3 { x: self.z, y: self.w, z: self.y }),
    {
        GVec3::new(self.z, self.w, self.y)
    }

    /// Returns `self` with the components `zwy` replaced, in order, by those of `rhs`.
    pub fn with_zwy(self, rhs: GVec3<T>) -> (r: GVec4<T>)
        ensures
            r == (GVec4 { x: self.x, y: rhs.z, z: rhs.x, w: rhs.y }),
    {
        GVec4::new(self.x, rhs.z, rhs.x, rhs.y)
    }

    /// Returns the components `zwz` of `self`, in that order.
    pub fn zwz(self) -> (r: GVec3<T>)
        ensures
            r == (GVec3 { x: self.z, y: self.w, z: self.z }),
    {
        GVec3::new(self.z, self.w, self.z)
    }

    /// Returns the components `zww` of `self`, in that order.
    pub fn zww(self) -> (r: GVec3<T>)
        ensures
            r == (GVec3 { x: self.z, y: self.w, z: self.w }),
    {
        GVec3::new(self.z, self.w, self.w)
    }

    /// Returns the components `wxx` of `self`, in that order.
    pub fn wxx(self) -> (r: GVec3<T>)
        ensures
            r == (GVec3 { x: self.w, y: self.x, z: self.x }),
    {
        GVec3::new(self.w, self.x, self.x)
    }

    /// Returns the components `wxy` of `self`, in that order.
    pub fn wxy(self) -> (r: GVec3<T>)
        ensures
            r == (GVec3 { x: self.w, y: self.x, z: self.y }),
    {
        GVec3::new(self.w, self.x, self.y)
    }

    /// Returns `self` with the components `wxy` replaced, in order, by those of `rhs`.
    pub fn with_wxy(self, rhs: GVec3<T>) -> (r: GVec4<T>)
        ensures
            r == (GVec4 { x: rhs.y, y: rhs.z, z: self.z, w: rhs.x }),
    {
        GVec4::new(rhs.y, rhs.z, self.z, rhs.x)
    }

    /// Returns the components `wxz` of `self`, in that order.
    pub fn wxz(self) -> (r: GVec3<T>)
        ensures
            r == (GVec3 { x: self.w, y: self.x, z: self.z }),
    {
        GVec3::new(self.w, self.x, self.z)
    }

    /// Returns `self` with the components `wxz` replaced, in order, by those of `rhs`.
    pub fn with_wxz(self, rhs: GVec3<T>) -> (r: GVec4<T>)
        ensures
            r == (GVec4 { x: rhs.y, y: self.y, z: rhs.z, w: rhs.x }),
    {
        GVec4::new(rhs.y, self.y, rhs.z, rhs.x)
    }

    /// Returns the components `wxw` of `self`, in that order.
    pub fn wxw(self) -> (r: GVec3<T>)
        ensures
            r == (GVec3 { x: self.w, y: self.x, z: self.w }),
    {
        GVec3::new(self.w, self.x, self.w)
    }

    /// Returns the components `wyx` of `self`, in that order.
    pub fn wyx(self) -> (r: GVec3<T>)
        ensures
            r == (GVec3 { x: self.w, y: self.y, z: self.x }),
    {
        GVec3::new(self.w, self.y, self.x)
    }

    /// Returns `self` with the components `wyx` replaced, in order, by those of `rhs`.
    pub fn with_wyx(self, rhs: GVec3<T>) -> (r: GVec4<T>)
        ensures
            r == (GVec4 { x: rhs.z, y: rhs.y, z: self.z, w: rhs.x }),
    {
        GVec4::new(rhs.z, rhs.y, self.z, rhs.x)
    }

    /// Returns the components `wyy` of `self`, in that order.
    pub fn wyy(self) -> (r: GVec3<T>)
        ensures
            r == (GVec3 { x: self.w, y: self.y, z: self.y }),
    {
        GVec3::new(self.w, self.y, self.y)
    }

    /// Returns the components `wyz` of `self`, in that order.
    pub fn wyz(self) -> (r: GVec3<T>)
        ensures
            r == (GVec3 { x: self.w, y: self.y, z: self.z }),
    {
        GVec3::new(self.w, self.y, self.z)
    }

    /// Returns `self` with the components `wyz` replaced, in order, by those of `rhs`.
    pub fn with_wyz(self, rhs: GVec3<T>) -> (r: GVec4<T>)
        ensures
            r == (GVec4 { x: self.x, y: rhs.y, z: rhs.z, w: rhs.x }),
    {
        GVec4::new(self.x, rhs.y, rhs.z, rhs.x)
    }

    /// Returns the components `wyw` of `self`, in that order.
    pub fn wyw(self) -> (r: GVec3<T>)
        ensures
            r == (GVec3 { x: self.w, y: self.y, z: self.w }),
    {
        GVec3::new(self.w, self.y, self.w)
    }

    /// Returns the components `wzx` of `self`, in that order.
    pub fn wzx(self) -> (r: GVec3<T>)
        ensures
            r == (GVec3 { x: self.w, y: self.z, z: self.x }),
    {
        GVec3::new(self.w, self.z, self.x)
    }

    /// Returns `self` with the components `wzx` replaced, in order, by those of `rhs`.
    pub fn with_wzx(self, rhs: GVec3<T>) -> (r: GVec4<T>)
        ensures
            r == (GVec4 { x: rhs.z, y: self.y, z: rhs.y, w: rhs.x }),
    {
        GVec4::new(rhs.z, self.y, rhs.y, rhs.x)
    }

    /// Returns the components `wzy` of `self`, in that order.
    pub fn wzy(self) -> (r: GVec3<T>)
        ensures
            r == (GVec3 { x: self.w, y: self.z, z: self.y }),
    {
        GVec3::new(self.w, self.z, self.y)
    }

    /// Returns `self` with the components `wzy` replaced, in order, by those of `rhs`.
    pub fn with_wzy(self, rhs: GVec3<T>) -> (r: GVec4<T>)
        ensures
            r == (GVec4 { x: self.x, y: rhs.z, z: rhs.y, w: rhs.x }),
    {
        GVec4::new(self.x, rhs.z, rhs.y, rhs.x)
    }

    /// Returns the components `wzz` of `self`, in that order.
    pub fn wzz(self) -> (r: GVec3<T>)
        ensures
            r == (GVec3 { x: self.w, y: self.z, z: self.z }),
    {
        GVec3::new(self.w, self.z, self.z)
    }

    /// Returns the components `wzw` of `self`, in that order.
    pub fn wzw(self) -> (r: GVec3<T>)
        ensures
            r == (GVec3 { x: self.w, y: self.z, z: self.w }),
    {
        GVec3::new(self.w, self.z, self.w)
    }

    /// Returns the components `wwx` of `self`, in that order.
    pub fn wwx(self) -> (r: GVec3<T>)
        ensures
            r == (GVec3 { x: self.w, y: self.w, z: self.x }),
    {
        GVec3::new(self.w, self.w, self.x)
    }

    /// Returns the components `wwy` of `self`, in that order.
    pub fn wwy(self) -> (r: GVec3<T>)
        ensures
            r == (GVec3 { x: self.w, y: self.w, z: self.y }),
    {
        GVec3::new(self.w, self.w, self.y)
    }

    /// Returns the components `wwz` of `self`, in that order.
    pub fn wwz(self) -> (r: GVec3<T>)
        ensures
            r == (GVec3 { x: self.w, y: self.w, z: self.z }),
    {
        GVec3::new(self.w, self.w, self.z)
    }

    /// Returns the components `www` of `self`, in that order.
    pub fn www(self) -> (r: GVec3<T>)
        ensures
            r == (GVec3 { x: self.w, y: self.w, z: self.w }),
    {
        GVec3::new(self.w, self.w, self.w)
    }

    /// Returns the components `xxxx` of `self`, in that order.
    pub fn xxxx(self) -> (r: GVec4<T>)
        ensures
            r == (GVec4 { x: self.x, y: self.x, z: self.x, w: self.x }),
    {
        GVec4::new(self.x, self.x, self.x, self.x)
    }

    /// Returns the components `xxxy` of `self`, in that order.
    pub fn xxxy(self) -> (r: GVec4<T>)
        ensures
            r == (GVec4 { x: self.x, y: self.x, z: self.x, w: self.y }),
    {
        GVec4::new(self.x, self.x, self.x, self.y)
    }

    /// Returns the components `xxxz` of `self`, in that order.
    pub fn xxxz(self) -> (r: GVec4<T>)
        ensures
            r == (GVec4 { x: self.x, y: self.x, z: self.x, w: self.z }),
    {
        GVec4::new(self.x, self.x, self.x, self.z)
    }

    /// Returns the components `xxxw` of `self`, in that order.
    pub fn xxxw(self) -> (r: GVec4<T>)
        ensures
            r == (GVec4 { x: self.x, y: self.x, z: self.x, w: self.w }),
    {
        GVec4::new(self.x, self.x, self.x, self.w)
    }

    /// Returns the components `xxyx` of `self`, in that order.
    pub fn xxyx(self) -> (r: GVec4<T>)
        ensures
            r == (GVec4 { x: self.x, y: self.x, z: self.y, w: self.x }),
    {
        GVec4::new(self.x, self.x, self.y, self.x)
    }

    /// Returns the components `xxyy` of `self`, in that order.
    pub fn xxyy(self) -> (r: GVec4<T>)
        ensures
            r == (GVec4 { x: self.x, y: self.x, z: self.y, w: self.y }),
    {
        GVec4::new(self.x, self.x, self.y, self.y)
    }

    /// Returns the components `xxyz` of `self`, in that order.
    pub fn xxyz(self) -> (r: GVec4<T>)
        ensures
            r == (GVec4 { x: self.x, y: self.x, z: self.y, w: self.z }),
    {
        GVec4::new(self.x, self.x, self.y, self.z)
    }

    /// Returns the components `xxyw` of `self`, in that order.
    pub fn xxyw(self) -> (r: GVec4<T>)
        ensures
            r == (GVec4 { x: self.x, y: self.x, z: self.y, w: self.w }),
    {
        GVec4::new(self.x, self.x, self.y, self.w)
    }

    /// Returns the components `xxzx` of `self`, in that order.
    pub fn xxzx(self) -> (r: GVec4<T>)
        ensures
            r == (GVec4 { x: self.x, y: self.x, z: self.z, w: self.x }),
    {
        GVec4::new(self.x, self.x, self.z, self.x)
    }

    /// Returns the components `xxzy` of `self`, in that order.
    pub fn xxzy(self) -> (r: GVec4<T>)
        ensures
            r == (GVec4 { x: self.x, y: self.x, z: self.z, w: self.y }),
    {
        GVec4::new(self.x, self.x, self.z, self.y)
    }

    /// Returns the components `xxzz` of `self`, in that order.
    pub fn xxzz(self) -> (r: GVec4<T>)
        ensures
            r == (GVec4 { x: self.x, y: self.x, z: self.z, w: self.z }),
    {
        GVec4::new(self.x, self.x, self.z, self.z)
    }

    /// Returns the components `xxzw` of `self`, in that order.
    pub fn xxzw(self) -> (r: GVec4<T>)
        ensures
            r == (GVec4 { x: self.x, y: self.x, z: self.z, w: self.w }),
    {
        GVec4::new(self.x, self.x, self.z, self.w)
    }

    /// Returns the components `xxwx` of `self`, in that order.
    pub fn xxwx(self) -> (r: GVec4<T>)
        ensures
            r == (GVec4 { x: self.x, y: self.x, z: self.w, w: self.x }),
    {
        GVec4::new(self.x, self.x, self.w, self.x)
    }

    /// Returns the components `xxwy` of `self`, in that order.
    pub fn xxwy(self) -> (r: GVec4<T>)
        ensures
            r == (GVec4 { x: self.x, y: self.x, z: self.w, w: self.y }),
    {
        GVec4::new(self.x, self.x, self.w, self.y)
    }

    /// Returns the components `xxwz` of `self`, in that order.
    pub fn xxwz(self) -> (r: GVec4<T>)
        ensures
            r == (GVec4 { x: self.x, y: self.x, z: self.w, w: self.z }),
    {
        GVec4::new(self.x, self.x, self.w, self.z)
    }

    /// Returns the components `xxww` of `self`, in that order.
    pub fn xxww(self) -> (r: GVec4<T>)
        ensures
            r == (GVec4 { x: self.x, y: self.x, z: self.w, w: self.w }),
    {
        GVec4::new(self.x, self.x, self.w, self.w)
    }

    /// Returns the components `xyxx` of `self`, in that order.
    pub fn xyxx(self) -> (r: GVec4<T>)
        ensures
            r == (GVec4 { x: self.x, y: self.y, z: self.x, w: self.x }),
    {
        GVec4::new(self.x, self.y, self.x, self.x)
    }

    /// Returns the components `xyxy` of `self`, in that order.
    pub fn xyxy(self) -> (r: GVec4<T>)
        ensures
            r == (GVec4 { x: self.x, y: self.y, z: self.x, w: self.y }),
    {
        GVec4::new(self.x, self.y, self.x, self.y)
    }

    /// Returns the components `xyxz` of `self`, in that order.
    pub fn xyxz(self) -> (r: GVec4<T>)
        ensures
            r == (GVec4 { x: self.x, y: self.y, z: self.x, w: self.z }),
    {
        GVec4::new(self.x, self.y, self.x, self.z)
    }

    /// Returns the components `xyxw` of `self`, in that order.
    pub fn xyxw(self) -> (r: GVec4<T>)
        ensures
            r == (GVec4 { x: self.x, y: self.y, z: self.x, w: self.w }),
    {
        GVec4::new(self.x, self.y, self.x, self.w)
    }

    /// Returns the components `xyyx` of `self`, in that order.
    pub fn xyyx(self) -> (r: GVec4<T>)
        ensures
            r == (GVec4 { x: self.x, y: self.y, z: self.y, w: self.x }),
    {
        GVec4::new(self.x, self.y, self.y, self.x)
    }

    /// Returns the components `xyyy` of `self`, in that order.
    pub fn xyyy(self) -> (r: GVec4<T>)
        ensures
            r == (GVec4 { x: self.x, y: self.y, z: self.y, w: self.y }),
    {
        GVec4::new(self.x, self.y, self.y, self.y)
    }

    /// Returns the components `xyyz` of `self`, in that order.
    pub fn xyyz(self) -> (r: GVec4<T>)
        ensures
            r == (GVec4 { x: self.x, y: self.y, z: self.y, w: self.z }),
    {
        GVec4::new(self.x, self.y, self.y, self.z)
    }

    /// Returns the components `xyyw` of `self`, in that order.
    pub fn xyyw(self) -> (r: GVec4<T>)
        ensures
            r == (GVec4 { x: self.x, y: self.y, z: self.y, w: self.w }),
    {
        GVec4::new(self.x, self.y, self.y, self.w)
    }

    /// Returns the components `xyzx` of `self`, in that order.
    pub fn xyzx(self) -> (r: GVec4<T>)
        ensures
            r == (GVec4 { x: self.x, y: self.y, z: self.z, w: self.x }),
    {
        GVec4::new(self.x, self.y, self.z, self.x)
    }

    /// Returns the components `xyzy` of `self`, in that order.
    pub fn xyzy(self) -> (r: GVec4<T>)
        ensures
            r == (GVec4 { x: self.x, y: self.y, z: self.z, w: self.y }),
    {
        GVec4::new(self.x, self.y, self.z, self.y)
    }

    /// Returns the components `xyzz` of `self`, in that order.
    pub fn xyzz(self) -> (r: GVec4<T>)
        ensures
            r == (GVec4 { x: self.x, y: self.y, z: self.z, w: self.z }),
    {
        GVec4::new(self.x, self.y, self.z, self.z)
    }

    /// Returns the components `xywx` of `self`, in that order.
    pub fn xywx(self) -> (r: GVec4<T>)
        ensures
            r == (GVec4 { x: self.x, y: self.y, z: self.w, w: self.x }),
    {
        GVec4::new(self.x, self.y, self.w, self.x)
    }

    /// Returns the components `xywy` of `self`, in that order.
    pub fn xywy(self) -> (r: GVec4<T>)
        ensures
            r == (GVec4 { x: self.x, y: self.y, z: self.w, w: self.y }),
    {
        GVec4::new(self.x, self.y, self.w, self.y)
    }

    /// Returns the components `xywz` of `self`, in that order.
    pub fn xywz(self) -> (r: GVec4<T>)
        ensures
            r == (GVec4 { x: self.x, y: self.y, z: self.w, w: self.z }),
    {
        GVec4::new(self.x, self.y, self.w, self.z)
    }

    /// Returns the components `xyww` of `self`, in that order.
    pub fn xyww(self) -> (r: GVec4<T>)
        ensures
            r == (GVec4 { x: self.x, y: self.y, z: self.w, w: self.w }),
    {
        GVec4::new(self.x, self.y, self.w, self.w)
    }

    /// Returns the components `xzxx` of `self`, in that order.
    pub fn xzxx(self) -> (r: GVec4<T>)
        ensures
            r == (GVec4 { x: self.x, y: self.z, z: self.x, w: self.x }),
    {
        GVec4::new(self.x, self.z, self.x, self.x)
    }

    /// Returns the components `xzxy` of `self`, in that order.
    pub fn xzxy(self) -> (r: GVec4<T>)
        ensures
            r == (GVec4 { x: self.x, y: self.z, z: self.x, w: self.y }),
    {
        GVec4::new(self.x, self.z, self.x, self.y)
    }

    /// Returns the components `xzxz` of `self`, in that order.
    pub fn xzxz(self) -> (r: GVec4<T>)
        ensures
            r == (GVec4 { x: self.x, y: self.z, z: self.x, w: self.z }),
    {
        GVec4::new(self.x, self.z, self.x, self.z)
    }

    /// Returns the components `xzxw` of `self`, in that order.
    pub fn xzxw(self) -> (r: GVec4<T>)
        ensures
            r == (GVec4 { x: self.x, y: self.z, z: self.x, w: self.w }),
    {
        GVec4::new(self.x, self.z, self.x, self.w)
    }

    /// Returns the components `xzyx` of `self`, in that order.
    pub fn xzyx(self) -> (r: GVec4<T>)
        ensures
            r == (GVec4 { x: self.x, y: self.z, z: self.y, w: self.x }),
    {
        GVec4::new(self.x, self.z, self.y, self.x)
    }

    /// Returns the components `xzyy` of `self`, in that order.
    pub fn xzyy(self) -> (r: GVec4<T>)
        ensures
            r == (GVec4 { x: self.x, y: self.z, z: self.y, w: self.y }),
    {
        GVec4::new(self.x, self.z, self.y, self.y)
    }

    /// Returns the components `xzyz` of `self`, in that order.
    pub fn xzyz(self) -> (r: GVec4<T>)
        ensures
            r == (GVec4 { x: self.x, y: self.z, z: self.y, w: self.z }),
    {
        GVec4::new(self.x, self.z, self.y, self.z)
    }

    /// Returns the components `xzyw` of `self`, in that order.
    pub fn xzyw(self) -> (r: GVec4<T>)
        ensures
            r == (GVec4 { x: self.x, y: self.z, z: self.y, w: self.w }),
    {
        GVec4::new(self.x, self.z, self.y, self.w)
    }

    /// Returns the components `xzzx` of `self`, in that order.
    pub fn xzzx(self) -> (r: GVec4<T>)
        ensures
            r == (GVec4 { x: self.x, y: self.z, z: self.z, w: self.x }),
    {
        GVec4::new(self.x, self.z, self.z, self.x)
    }

    /// Returns the components `xzzy` of `self`, in that order.
    pub fn xzzy(self) -> (r: GVec4<T>)
        ensures
            r == (GVec4 { x: self.x, y: self.z, z: self.z, w: self.y }),
    {
        GVec4::new(self.x, self.z, self.z, self.y)
    }

    /// Returns the components `xzzz` of `self`, in that order.
    pub fn xzzz(self) -> (r: GVec4<T>)
        ensures
            r == (GVec4 { x: self.x, y: self.z, z: self.z, w: self.z }),
    {
        GVec4::new(self.x, self.z, self.z, self.z)
    }

    /// Returns the components `xzzw` of `self`, in that order.
    pub fn xzzw(self) -> (r: GVec4<T>)
        ensures
            r == (GVec4 { x: self.x, y: self.z, z: self.z, w: self.w }),
    {
        GVec4::new(self.x, self.z, self.z, self.w)
    }

    /// Returns the components `xzwx` of `self`, in that order.
    pub fn xzwx(self) -> (r: GVec4<T>)
        ensures
            r == (GVec4 { x: self.x, y: self.z, z: self.w, w: self.x }),
    {
        GVec4::new(self.x, self.z, self.w, self.x)
    }

    /// Returns the components `xzwy` of `self`, in that order.
    pub fn xzwy(self) -> (r: GVec4<T>)
        ensures
            r == (GVec4 { x: self.x, y: self.z, z: self.w, w: self.y }),
    {
        GVec4::new(self.x, self.z, self.w, self.y)
    }

    /// Returns the components `xzwz` of `self`, in that order.
    pub fn xzwz(self) -> (r: GVec4<T>)
        ensures
            r == (GVec4 { x: self.x, y: self.z, z: self.w, w: self.z }),
    {
        GVec4::new(self.x, self.z, self.w, self.z)
    }

    /// Returns the components `xzww` of `self`, in that order.
    pub fn xzww(self) -> (r: GVec4<T>)
        ensures
            r == (GVec4 { x: self.x, y: self.z, z: self.w, w: self.w }),
    {
        GVec4::new(self.x, self.z, self.w, self.w)
    }

    /// Returns the components `xwxx` of `self`, in that order.
    pub fn xwxx(self) -> (r: GVec4<T>)
        ensures
            r == (GVec4 { x: self.x, y: self.w, z: self.x, w: self.x }),
    {
        GVec4::new(self.x, self.w, self.x, self.x)
    }

    /// Returns the components `xwxy` of `self`, in that order.
    pub fn xwxy(self) -> (r: GVec4<T>)
        ensures
            r == (GVec4 { x: self.x, y: self.w, z: self.x, w: self.y }),
    {
        GVec4::new(self.x, self.w, self.x, self.y)
    }

    /// Returns the components `xwxz` of `self`, in that order.
    pub fn xwxz(self) -> (r: GVec4<T>)
        ensures
            r == (GVec4 { x: self.x, y: self.w, z: self.x, w: self.z }),
    {
        GVec4::new(self.x, self.w, self.x, self.z)
    }

    /// Returns the components `xwxw` of `self`, in that order.
    pub fn xwxw(self) -> (r: GVec4<T>)
        ensures
            r == (GVec4 { x: self.x, y: self.w, z: self.x, w: self.w }),
    {
        GVec4::new(self.x, self.w, self.x, self.w)
    }

    /// Returns the components `xwyx` of `self`, in that order.
    pub fn xwyx(self) -> (r: GVec4<T>)
        ensures
            r == (GVec4 { x: self.x, y: self.w, z: self.y, w: self.x }),
    {
        GVec4::new(self.x, self.w, self.y, self.x)
    }

    /// Returns the components `xwyy` of `self`, in that order.
    pub fn xwyy(self) -> (r: GVec4<T>)
        ensures
            r == (GVec4 { x: self.x, y: self.w, z: self.y, w: self.y }),
    {
        GVec4::new(self.x, self.w, self.y, self.y)
    }

    /// Returns the components `xwyz` of `self`, in that order.
    pub fn xwyz(self) -> (r: GVec4<T>)
        ensures
            r == (GVec4 { x: self.x, y: self.w, z: self.y, w: self.z }),
    {
        GVec4::new(self.x, self.w, self.y, self.z)
    }

    /// Returns the components `xwyw` of `self`, in that order.
    pub fn xwyw(self) -> (r: GVec4<T>)
        ensures
            r == (GVec4 { x: self.x, y: self.w, z: self.y, w: self.w }),
    {
        GVec4::new(self.x, self.w, self.y, self.w)
    }

    /// Returns the components `xwzx` of `self`, in that order.
    pub fn xwzx(self) -> (r: GVec4<T>)
        ensures
            r == (GVec4 { x: self.x, y: self.w, z: self.z, w: self.x }),
    {
        GVec4::new(self.x, self.w, self.z, self.x)
    }

    /// Returns the components `xwzy` of `self`, in that order.
    pub fn xwzy(self) -> (r: GVec4<T>)
        ensures
            r == (GVec4 { x: self.x, y: self.w, z: self.z, w: self.y }),
    {
        GVec4::new(self.x, self.w, self.z, self.y)
    }

    /// Returns the components `xwzz` of `self`, in that order.
    pub fn xwzz(self) -> (r: GVec4<T>)
        ensures
            r == (GVec4 { x: self.x, y: self.w, z: self.z, w: self.z }),
    {
        GVec4::new(self.x, self.w, self.z, self.z)
    }

    /// Returns the components `xwzw` of `self`, in that order.
    pub fn xwzw(self) -> (r: GVec4<T>)
        ensures
            r == (GVec4 { x: self.x, y: self.w, z: self.z, w: self.w }),
    {
        GVec4::new(self.x, self.w, self.z, self.w)
    }

    /// Returns the components `xwwx` of `self`, in that order.
    pub fn xwwx(self) -> (r: GVec4<T>)
        ensures
            r == (GVec4 { x: self.x, y: self.w, z: self.w, w: self.x }),
    {
        GVec4::new(self.x, self.w, self.w, self.x)
    }

    /// Returns the components `xwwy` of `self`, in that order.
    pub fn xwwy(self) -> (r: GVec4<T>)
        ensures
            r == (GVec4 { x: self.x, y: self.w, z: self.w, w: self.y }),
    {
        GVec4::new(self.x, self.w, self.w, self.y)
    }

    /// Returns the components `xwwz` of `self`, in that order.
    pub fn xwwz(self) -> (r: GVec4<T>)
        ensures
            r == (GVec4 { x: self.x, y: self.w, z: self.w, w: self.z }),
    {
        GVec4::new(self.x, self.w, self.w, self.z)
    }

    /// Returns the components `xwww` of `self`, in that order.
    pub fn xwww(self) -> (r: GVec4<T>)
        ensures
            r == (GVec4 { x: self.x, y: self.w, z: self.w, w: self.w }),
    {
        GVec4::new(self.x, self.w, self.w, self.w)
    }

    /// Returns the components `yxxx` of `self`, in that order.
    pub fn yxxx(self) -> (r: GVec4<T>)
        ensures
            r == (GVec4 { x: self.y, y: self.x, z: self.x, w: self.x }),
    {
        GVec4::new(self.y, self.x, self.x, self.x)
    }

    /// Returns the components `yxxy` of `self`, in that order.
    pub fn yxxy(self) -> (r: GVec4<T>)
        ensures
            r == (GVec4 { x: self.y, y: self.x, z: self.x, w: self.y }),
    {
        GVec4::new(self.y, self.x, self.x, self.y)
    }

    /// Returns the components `yxxz` of `self`, in that order.
    pub fn yxxz(self) -> (r: GVec4<T>)
        ensures
            r == (GVec4 { x: self.y, y: self.x, z: self.x, w: self.z }),
    {
        GVec4::new(self.y, self.x, self.x, self.z)
    }

    /// Returns the components `yxxw` of `self`, in that order.
    pub fn yxxw(self) -> (r: GVec4<T>)
        ensures
            r == (GVec4 { x: self.y, y: self.x, z: self.x, w: self.w }),
    {
        GVec4::new(self.y, self.x, self.x, self.w)
    }

    /// Returns the components `yxyx` of `self`, in that order.
    pub fn yxyx(self) -> (r: GVec4<T>)
        ensures
            r == (GVec4 { x: self.y, y: self.x, z: self.y, w: self.x }),
    {
        GVec4::new(self.y, self.x, self.y, self.x)
    }

    /// Returns the components `yxyy` of `self`, in that order.
    pub fn yxyy(self) -> (r: GVec4<T>)
        ensures
            r == (GVec4 { x: self.y, y: self.x, z: self.y, w: self.y }),
    {
        GVec4::new(self.y, self.x, self.y, self.y)
    }

    /// Returns the components `yxyz` of `self`, in that order.
    pub fn yxyz(self) -> (r: GVec4<T>)
        ensures
            r == (GVec4 { x: self.y, y: self.x, z: self.y, w: self.z }),
    {
        GVec4::new(self.y, self.x, self.y, self.z)
    }

    /// Returns the components `yxyw` of `self`, in that order.
    pub fn yxyw(self) -> (r: GVec4<T>)
        ensures
            r == (GVec4 { x: self.y, y: self.x, z: self.y, w: self.w }),
    {
        GVec4::new(self.y, self.x, self.y, self.w)
    }

    /// Returns the components `yxzx` of `self`, in that order.
    pub fn yxzx(self) -> (r: GVec4<T>)
        ensures
            r == (GVec4 { x: self.y, y: self.x, z: self.z, w: self.x }),
    {
        GVec4::new(self.y, self.x, self.z, self.x)
    }

    /// Returns the components `yxzy` of `self`, in that order.
    pub fn yxzy(self) -> (r: GVec4<T>)
        ensures
            r == (GVec4 { x: self.y, y: self.x, z: self.z, w: self.y }),
    {
        GVec4::new(self.y, self.x, self.z, self.y)
    }

    /// Returns the components `yxzz` of `self`, in that order.
    pub fn yxzz(self) -> (r: GVec4<T>)
        ensures
            r == (GVec4 { x: self.y, y: self.x, z: self.z, w: self.z }),
    {
        GVec4::new(self.y, self.x, self.z, self.z)
    }

    /// Returns the components `yxzw` of `self`, in that order.
    pub fn yxzw(self) -> (r: GVec4<T>)
        ensures
            r == (GVec4 { x: self.y, y: self.x, z: self.z, w: self.w }),
    {
        GVec4::new(self.y, self.x, self.z, self.w)
    }

    /// Returns the components `yxwx` of `self`, in that order.
    pub fn yxwx(self) -> (r: GVec4<T>)
        ensures
            r == (GVec4 { x: self.y, y: self.x, z: self.w, w: self.x }),
    {
        GVec4::new(self.y, self.x, self.w, self.x)
    }

    /// Returns the components `yxwy` of `self`, in that order.
    pub fn yxwy(self) -> (r: GVec4<T>)
        ensures
            r == (GVec4 { x: self.y, y: self.x, z: self.w, w: self.y }),
    {
        GVec4::new(self.y, self.x, self.w, self.y)
    }

    /// Returns the components `yxwz` of `self`, in that order.
    pub fn yxwz(self) -> (r: GVec4<T>)
        ensures
            r == (GVec4 { x: self.y, y: self.x, z: self.w, w: self.z }),
    {
        GVec4::new(self.y, self.x, self.w, self.z)
    }

    /// Returns the components `yxww` of `self`, in that order.
    pub fn yxww(self) -> (r: GVec4<T>)
        ensures
            r == (GVec4 { x: self.y, y: self.x, z: self.w, w: self.w }),
    {
        GVec4::new(self.y, self.x, self.w, self.w)
    }

    /// Returns the components `yyxx` of `self`, in that order.
    pub fn yyxx(self) -> (r: GVec4<T>)
        ensures
            r == (GVec4 { x: self.y, y: self.y, z: self.x, w: self.x }),
    {
        GVec4::new(self.y, self.y, self.x, self.x)
    }

    /// Returns the components `yyxy` of `self`, in that order.
    pub fn yyxy(self) -> (r: GVec4<T>)
        ensures
            r == (GVec4 { x: self.y, y: self.y, z: self.x, w: self.y }),
    {
        GVec4::new(self.y, self.y, self.x, self.y)
    }

    /// Returns the components `yyxz` of `self`, in that order.
    pub fn yyxz(self) -> (r: GVec4<T>)
        ensures
            r == (GVec4 { x: self.y, y: self.y, z: self.x, w: self.z }),
    {
        GVec4::new(self.y, self.y, self.x, self.z)
    }

    /// Returns the components `yyxw` of `self`, in that order.
    pub fn yyxw(self) -> (r: GVec4<T>)
        ensures
            r == (GVec4 { x: self.y, y: self.y, z: self.x, w: self.w }),
    {
        GVec4::new(self.y, self.y, self.x, self.w)
    }

    /// Returns the components `yyyx` of `self`, in that order.
    pub fn yyyx(self) -> (r: GVec4<T>)
        ensures
            r == (GVec4 { x: self.y, y: self.y, z: self.y, w: self.x }),
    {
        GVec4::new(self.y, self.y, self.y, self.x)
    }

    /// Returns the components `yyyy` of `self`, in that order.
    pub fn yyyy(self) -> (r: GVec4<T>)
        ensures
            r == (GVec4 { x: self.y, y: self.y, z: self.y, w: self.y }),
    {
        GVec4::new(self.y, self.y, self.y, self.y)
    }

    /// Returns the components `yyyz` of `self`, in that order.
    pub fn yyyz(self) -> (r: GVec4<T>)
        ensures
            r == (GVec4 { x: self.y, y: self.y, z: self.y, w: self.z }),
    {
        GVec4::new(self.y, self.y, self.y, self.z)
    }

    /// Returns the components `yyyw` of `self`, in that order.
    pub fn yyyw(self) -> (r: GVec4<T>)
        ensures
            r == (GVec4 { x: self.y, y: self.y, z: self.y, w: self.w }),
    {
        GVec4::new(self.y, self.y, self.y, self.w)
    }

    /// Returns the components `yyzx` of `self`, in that order.
    pub fn yyzx(self) -> (r: GVec4<T>)
        ensures
            r == (GVec4 { x: self.y, y: self.y, z: self.z, w: self.x }),
    {
        GVec4::new(self.y, self.y, self.z, self.x)
    }

    /// Returns the components `yyzy` of `self`, in that order.
    pub fn yyzy(self) -> (r: GVec4<T>)
        ensures
            r == (GVec4 { x: self.y, y: self.y, z: self.z, w: self.y }),
    {
        GVec4::new(self.y, self.y, self.z, self.y)
    }

    /// Returns the components `yyzz` of `self`, in that order.
    pub fn yyzz(self) -> (r: GVec4<T>)
        ensures
            r == (GVec4 { x: self.y, y: self.y, z: self.z, w: self.z }),
    {
        GVec4::new(self.y, self.y, self.z, self.z)
    }

    /// Returns the components `yyzw` of `self`, in that order.
    pub fn yyzw(self) -> (r: GVec4<T>)
        ensures
            r == (GVec4 { x: self.y, y: self.y, z: self.z, w: self.w }),
    {
        GVec4::new(self.y, self.y, self.z, self.w)
    }

    /// Returns the components `yywx` of `self`, in that order.
    pub fn yywx(self) -> (r: GVec4<T>)
        ensures
            r == (GVec4 { x: self.y, y: self.y, z: self.w, w: self.x }),
    {
        GVec4::new(self.y, self.y, self.w, self.x)
    }

    /// Returns the components `yywy` of `self`, in that order.
    pub fn yywy(self) -> (r: GVec4<T>)
        ensures
            r == (GVec4 { x: self.y, y: self.y, z: self.w, w: self.y }),
    {
        GVec4::new(self.y, self.y, self.w, self.y)
    }

    /// Returns the components `yywz` of `self`, in that order.
    pub fn yywz(self) -> (r: GVec4<T>)
        ensures
            r == (GVec4 { x: self.y, y: self.y, z: self.w, w: self.z }),
    {
        GVec4::new(self.y, self.y, self.w, self.z)
    }

    /// Returns the components `yyww` of `self`, in that order.
    pub fn yyww(self) -> (r: GVec4<T>)
        ensures
            r == (GVec4 { x: self.y, y: self.y, z: self.w, w: self.w }),
    {
        GVec4::new(self.y, self.y, self.w, self.w)
    }

    /// Returns the components `yzxx` of `self`, in that order.
    pub fn yzxx(self) -> (r: GVec4<T>)
        ensures
            r == (GVec4 { x: self.y, y: self.z, z: self.x, w: self.x }),
    {
        GVec4::new(self.y, self.z, self.x, self.x)
    }

    /// Returns the components `yzxy` of `self`, in that order.
    pub fn yzxy(self) -> (r: GVec4<T>)
        ensures
            r == (GVec4 { x: self.y, y: self.z, z: self.x, w: self.y }),
    {
        GVec4::new(self.y, self.z, self.x, self.y)
    }

    /// Returns the components `yzxz` of `self`, in that order.
    pub fn yzxz(self) -> (r: GVec4<T>)
        ensures
            r == (GVec4 { x: self.y, y: self.z, z: self.x, w: self.z }),
    {
        GVec4::new(self.y, self.z, self.x, self.z)
    }

    /// Returns the components `yzxw` of `self`, in that order.
    pub fn yzxw(self) -> (r: GVec4<T>)
        ensures
            r == (GVec4 { x: self.y, y: self.z, z: self.x, w: self.w }),
    {
        GVec4::new(self.y, self.z, self.x, self.w)
    }

    /// Returns the components `yzyx` of `self`, in that order.
    pub fn yzyx(self) -> (r: GVec4<T>)
        ensures
            r == (GVec4 { x: self.y, y: self.z, z: self.y, w: self.x }),
    {
        GVec4::new(self.y, self.z, self.y, self.x)
    }

    /// Returns the components `yzyy` of `self`, in that order.
    pub fn yzyy(self) -> (r: GVec4<T>)
        ensures
            r == (GVec4 { x: self.y, y: self.z, z: self.y, w: self.y }),
    {
        GVec4::new(self.y, self.z, self.y, self.y)
    }

    /// Returns the components `yzyz` of `self`, in that order.
    pub fn yzyz(self) -> (r: GVec4<T>)
        ensures
            r == (GVec4 { x: self.y, y: self.z, z: self.y, w: self.z }),
    {
        GVec4::new(self.y, self.z, self.y, self.z)
    }

    /// Returns the components `yzyw` of `self`, in that order.
    pub fn yzyw(self) -> (r: GVec4<T>)
        ensures
            r == (GVec4 { x: self.y, y: self.z, z: self.y, w: self.w }),
    {
        GVec4::new(self.y, self.z, self.y, self.w)
    }

    /// Returns the components `yzzx` of `self`, in that order.
    pub fn yzzx(self) -> (r: GVec4<T>)
        ensures
            r == (GVec4 { x: self.y, y: self.z, z: self.z, w: self.x }),
    {
        GVec4::new(self.y, self.z, self.z, self.x)
    }

    /// Returns the components `yzzy` of `self`, in that order.
    pub fn yzzy(self) -> (r: GVec4<T>)
        ensures
            r == (GVec4 { x: self.y, y: self.z, z: self.z, w: self.y }),
    {
        GVec4::new(self.y, self.z, self.z, self.y)
    }

    /// Returns the components `yzzz` of `self`, in that order.
    pub fn yzzz(self) -> (r: GVec4<T>)
        ensures
            r == (GVec4 { x: self.y, y: self.z, z: self.z, w: self.z }),
    {
        GVec4::new(self.y, self.z, self.z, self.z)
    }

    /// Returns the components `yzzw` of `self`, in that order.
    pub fn yzzw(self) -> (r: GVec4<T>)
        ensures
            r == (GVec4 { x: self.y, y: self.z, z: self.z, w: self.w }),
    {
        GVec4::new(self.y, self.z, self.z, self.w)
    }

    /// Returns the components `yzwx` of `self`, in that order.
    pub fn yzwx(self) -> (r: GVec4<T>)
        ensures
            r == (GVec4 { x: self.y, y: self.z, z: self.w, w: self.x }),
    {
        GVec4::new(self.y, self.z, self.w, self.x)
    }

    /// Returns the components `yzwy` of `self`, in that order.
    pub fn yzwy(self) -> (r: GVec4<T>)
        ensures
            r == (GVec4 { x: self.y, y: self.z, z: self.w, w: self.y }),
    {
        GVec4::new(self.y, self.z, self.w, self.y)
    }

    /// Returns the components `yzwz` of `self`, in that order.
    pub fn yzwz(self) -> (r: GVec4<T>)
        ensures
            r == (GVec4 { x: self.y, y: self.z, z: self.w, w: self.z }),
    {
        GVec4::new(self.y, self.z, self.w, self.z)
    }

    /// Returns the components `yzww` of `self`, in that order.
    pub fn yzww(self) -> (r: GVec4<T>)
        ensures
            r == (GVec4 { x: self.y, y: self.z, z: self.w, w: self.w }),
    {
        GVec4::new(self.y, self.z, self.w, self.w)
    }

    /// Returns the components `ywxx` of `self`, in that order.
    pub fn ywxx(self) -> (r: GVec4<T>)
        ensures
            r == (GVec4 { x: self.y, y: self.w, z: self.x, w: self.x }),
    {
        GVec4::new(self.y, self.w, self.x, self.x)
    }

    /// Returns the components `ywxy` of `self`, in that order.
    pub fn ywxy(self) -> (r: GVec4<T>)
        ensures
            r == (GVec4 { x: self.y, y: self.w, z: self.x, w: self.y }),
    {
        GVec4::new(self.y, self.w, self.x, self.y)
    }

    /// Returns the components `ywxz` of `self`, in that order.
    pub fn ywxz(self) -> (r: GVec4<T>)
        ensures
            r == (GVec4 { x: self.y, y: self.w, z: self.x, w: self.z }),
    {
        GVec4::new(self.y, self.w, self.x, self.z)
    }

    /// Returns the components `ywxw` of `self`, in that order.
    pub fn ywxw(self) -> (r: GVec4<T>)
        ensures
            r == (GVec4 { x: self.y, y: self.w, z: self.x, w: self.w }),
    {
        GVec4::new(self.y, self.w, self.x, self.w)
    }

    /// Returns the components `ywyx` of `self`, in that order.
    pub fn ywyx(self) -> (r: GVec4<T>)
        ensures
            r == (GVec4 { x: self.y, y: self.w, z: self.y, w: self.x }),
    {
        GVec4::new(self.y, self.w, self.y, self.x)
    }

    /// Returns the components `ywyy` of `self`, in that order.
    pub fn ywyy(self) -> (r: GVec4<T>)
        ensures
            r == (GVec4 { x: self.y, y: self.w, z: self.y, w: self.y }),
    {
        GVec4::new(self.y, self.w, self.y, self.y)
    }

    /// Returns the components `ywyz` of `self`, in that order.
    pub fn ywyz(self) -> (r: GVec4<T>)
        ensures
            r == (GVec4 { x: self.y, y: self.w, z: self.y, w: self.z }),
    {
        GVec4::new(self.y, self.w, self.y, self.z)
    }

    /// Returns the components `ywyw` of `self`, in that order.
    pub fn ywyw(self) -> (r: GVec4<T>)
        ensures
            r == (GVec4 { x: self.y, y: self.w, z: self.y, w: self.w }),
    {
        GVec4::new(self.y, self.w, self.y, self.w)
    }

    /// Returns the components `ywzx` of `self`, in that order.
    pub fn ywzx(self) -> (r: GVec4<T>)
        ensures
            r == (GVec4 { x: self.y, y: self.w, z: self.z, w: self.x }),
    {
        GVec4::new(self.y, self.w, self.z, self.x)
    }

    /// Returns the components `ywzy` of `self`, in that order.
    pub fn ywzy(self) -> (r: GVec4<T>)
        ensures
            r == (GVec4 { x: self.y, y: self.w, z: self.z, w: self.y }),
    {
        GVec4::new(self.y, self.w, self.z, self.y)
    }

    /// Returns the components `ywzz` of `self`, in that order.
    pub fn ywzz(self) -> (r: GVec4<T>)
        ensures
            r == (GVec4 { x: self.y, y: self.w, z: self.z, w: self.z }),
    {
        GVec4::new(self.y, self.w, self.z, self.z)
    }

    /// Returns the components `ywzw` of `self`, in that order.
    pub fn ywzw(self) -> (r: GVec4<T>)
        ensures
            r == (GVec4 { x: self.y, y: self.w, z: self.z, w: self.w }),
    {
        GVec4::new(self.y, self.w, self.z, self.w)
    }

    /// Returns the components `ywwx` of `self`, in that order.
    pub fn ywwx(self) -> (r: GVec4<T>)
        ensures
            r == (GVec4 { x: self.y, y: self.w, z: self.w, w: self.x }),
    {
        GVec4::new(self.y, self.w, self.w, self.x)
    }

    /// Returns the components `ywwy` of `self`, in that order.
    pub fn ywwy(self) -> (r: GVec4<T>)
        ensures
            r == (GVec4 { x: self.y, y: self.w, z: self.w, w: self.y }),
    {
        GVec4::new(self.y, self.w, self.w, self.y)
    }

    /// Returns the components `ywwz` of `self`, in that order.
    pub fn ywwz(self) -> (r: GVec4<T>)
        ensures
            r == (GVec4 { x: self.y, y: self.w, z: self.w, w: self.z }),
    {
        GVec4::new(self.y, self.w, self.w, self.z)
    }

    /// Returns the components `ywww` of `self`, in that order.
    pub fn ywww(self) -> (r: GVec4<T>)
        ensures
            r == (GVec4 { x: self.y, y: self.w, z: self.w, w: self.w }),
    {
        GVec4::new(self.y, self.w, self.w, self.w)
    }

    /// Returns the components `zxxx` of `self`, in that order.
    pub fn zxxx(self) -> (r: GVec4<T>)
        ensures
            r == (GVec4 { x: self.z, y: self.x, z: self.x, w: self.x }),
    {
        GVec4::new(self.z, self.x, self.x, self.x)
    }

    /// Returns the components `zxxy` of `self`, in that order.
    pub fn zxxy(self) -> (r: GVec4<T>)
        ensures
            r == (GVec4 { x: self.z, y: self.x, z: self.x, w: self.y }),
    {
        GVec4::new(self.z, self.x, self.x, self.y)
    }

    /// Returns the components `zxxz` of `self`, in that order.
    pub fn zxxz(self) -> (r: GVec4<T>)
        ensures
            r == (GVec4 { x: self.z, y: self.x, z: self.x, w: self.z }),
    {
        GVec4::new(self.z, self.x, self.x, self.z)
    }

    /// Returns the components `zxxw` of `self`, in that order.
    pub fn zxxw(self) -> (r: GVec4<T>)
        ensures
            r == (GVec4 { x: self.z, y: self.x, z: self.x, w: self.w }),
    {
        GVec4::new(self.z, self.x, self.x, self.w)
    }

    /// Returns the components `zxyx` of `self`, in that order.
    pub fn zxyx(self) -> (r: GVec4<T>)
        ensures
            r == (GVec4 { x: self.z, y: self.x, z: self.y, w: self.x }),
    {
        GVec4::new(self.z, self.x, self.y, self.x)
    }

    /// Returns the components `zxyy` of `self`, in that order.
    pub fn zxyy(self) -> (r: GVec4<T>)
        ensures
            r == (GVec4 { x: self.z, y: self.x, z: self.y, w: self.y }),
    {
        GVec4::new(self.z, self.x, self.y, self.y)
    }

    /// Returns the components `zxyz` of `self`, in that order.
    pub fn zxyz(self) -> (r: GVec4<T>)
        ensures
            r == (GVec4 { x: self.z, y: self.x, z: self.y, w: self.z }),
    {
        GVec4::new(self.z, self.x, self.y, self.z)
    }

    /// Returns the components `zxyw` of `self`, in that order.
    pub fn zxyw(self) -> (r: GVec4<T>)
        ensures
            r == (GVec4 { x: self.z, y: self.x, z: self.y, w: self.w }),
    {
        GVec4::new(self.z, self.x, self.y, self.w)
    }

    /// Returns the components `zxzx` of `self`, in that order.
    pub fn zxzx(self) -> (r: GVec4<T>)
        ensures
            r == (GVec4 { x: self.z, y: self.x, z: self.z, w: self.x }),
    {
        GVec4::new(self.z, self.x, self.z, self.x)
    }

    /// Returns the components `zxzy` of `self`, in that order.
    pub fn zxzy(self) -> (r: GVec4<T>)
        ensures
            r == (GVec4 { x: self.z, y: self.x, z: self.z, w: self.y }),
    {
        GVec4::new(self.z, self.x, self.z, self.y)
    }

    /// Returns the components `zxzz` of `self`, in that order.
    pub fn zxzz(self) -> (r: GVec4<T>)
        ensures
            r == (GVec4 { x: self.z, y: self.x, z: self.z, w: self.z }),
    {
        GVec4::new(self.z, self.x, self.z, self.z)
    }

    /// Returns the components `zxzw` of `self`, in that order.
    pub fn zxzw(self) -> (r: GVec4<T>)
        ensures
            r == (GVec4 { x: self.z, y: self.x, z: self.z, w: self.w }),
    {
        GVec4::new(self.z, self.x, self.z, self.w)
    }

    /// Returns the components `zxwx` of `self`, in that order.
    pub fn zxwx(self) -> (r: GVec4<T>)
        ensures
            r == (GVec4 { x: self.z, y: self.x, z: self.w, w: self.x }),
    {
        GVec4::new(self.z, self.x, self.w, self.x)
    }

    /// Returns the components `zxwy` of `self`, in that order.
    pub fn zxwy(self) -> (r: GVec4<T>)
        ensures
            r == (GVec4 { x: self.z, y: self.x, z: self.w, w: self.y }),
    {
        GVec4::new(self.z, self.x, self.w, self.y)
    }

    /// Returns the components `zxwz` of `self`, in that order.
    pub fn zxwz(self) -> (r: GVec4<T>)
        ensures
            r == (GVec4 { x: self.z, y: self.x, z: self.w, w: self.z }),
    {
        GVec4::new(self.z, self.x, self.w, self.z)
    }

    /// Returns the components `zxww` of `self`, in that order.
    pub fn zxww(self) -> (r: GVec4<T>)
        ensures
            r == (GVec4 { x: self.z, y: self.x, z: self.w, w: self.w }),
    {
        GVec4::new(self.z, self.x, self.w, self.w)
    }

    /// Returns the components `zyxx` of `self`, in that order.
    pub fn zyxx(self) -> (r: GVec4<T>)
        ensures
            r == (GVec4 { x: self.z, y: self.y, z: self.x, w: self.x }),
    {
        GVec4::new(self.z, self.y, self.x, self.x)
    }

    /// Returns the components `zyxy` of `self`, in that order.
    pub fn zyxy(self) -> (r: GVec4<T>)
        ensures
            r == (GVec4 { x: self.z, y: self.y, z: self.x, w: self.y }),
    {
        GVec4::new(self.z, self.y, self.x, self.y)
    }

    /// Returns the components `zyxz` of `self`, in that order.
    pub fn zyxz(self) -> (r: GVec4<T>)
        ensures
            r == (GVec4 { x: self.z, y: self.y, z: self.x, w: self.z }),
    {
        GVec4::new(self.z, self.y, self.x, self.z)
    }

    /// Returns the components `zyxw` of `self`, in that order.
    pub fn zyxw(self) -> (r: GVec4<T>)
        ensures
            r == (GVec4 { x: self.z, y: self.y, z: self.x, w: self.w }),
    {
        GVec4::new(self.z, self.y, self.x, self.w)
    }

    /// Returns the components `zyyx` of `self`, in that order.
    pub fn zyyx(self) -> (r: GVec4<T>)
        ensures
            r == (GVec4 { x: self.z, y: self.y, z: self.y, w: self.x }),
    {
        GVec4::new(self.z, self.y, self.y, self.x)
    }

    /// Returns the components `zyyy` of `self`, in that order.
    pub fn zyyy(self) -> (r: GVec4<T>)
        ensures
            r == (GVec4 { x: self.z, y: self.y, z: self.y, w: self.y }),
    {
        GVec4::new(self.z, self.y, self.y, self.y)
    }

    /// Returns the components `zyyz` of `self`, in that order.
    pub fn zyyz(self) -> (r: GVec4<T>)
        ensures
            r == (GVec4 { x: self.z, y: self.y, z: self.y, w: self.z }),
    {
        GVec4::new(self.z, self.y, self.y, self.z)
    }

    /// Returns the components `zyyw` of `self`, in that order.
    pub fn zyyw(self) -> (r: GVec4<T>)
        ensures
            r == (GVec4 { x: self.z, y: self.y, z: self.y, w: self.w }),
    {
        GVec4::new(self.z, self.y, self.y, self.w)
    }

    /// Returns the components `zyzx` of `self`, in that order.
    pub fn zyzx(self) -> (r: GVec4<T>)
        ensures
            r == (GVec4 { x: self.z, y: self.y, z: self.z, w: self.x }),
    {
        GVec4::new(self.z, self.y, self.z, self.x)
    }

    /// Returns the components `zyzy` of `self`, in that order.
    pub fn zyzy(self) -> (r: GVec4<T>)
        ensures
            r == (GVec4 { x: self.z, y: self.y, z: self.z, w: self.y }),
    {
        GVec4::new(self.z, self.y, self.z, self.y)
    }

    /// Returns the components `zyzz` of `self`, in that order.
    pub fn zyzz(self) -> (r: GVec4<T>)
        ensures
            r == (GVec4 { x: self.z, y: self.y, z: self.z, w: self.z }),
    {
        GVec4::new(self.z, self.y, self.z, self.z)
    }

    /// Returns the components `zyzw` of `self`, in that order.
    pub fn zyzw(self) -> (r: GVec4<T>)
        ensures
            r == (GVec4 { x: self.z, y: self.y, z: self.z, w: self.w }),
    {
        GVec4::new(self.z, self.y, self.z, self.w)
    }

    /// Returns the components `zywx` of `self`, in that order.
    pub fn zywx(self) -> (r: GVec4<T>)
        ensures
            r == (GVec4 { x: self.z, y: self.y, z: self.w, w: self.x }),
    {
        GVec4::new(self.z, self.y, self.w, self.x)
    }

    /// Returns the components `zywy` of `self`, in that order.
    pub fn zywy(self) -> (r: GVec4<T>)
        ensures
            r == (GVec4 { x: self.z, y: self.y, z: self.w, w: self.y }),
    {
        GVec4::new(self.z, self.y, self.w, self.y)
    }

    /// Returns the components `zywz` of `self`, in that order.
    pub fn zywz(self) -> (r: GVec4<T>)
        ensures
            r == (GVec4 { x: self.z, y: self.y, z: self.w, w: self.z }),
    {
        GVec4::new(self.z, self.y, self.w, self.z)
    }

    /// Returns the components `zyww` of `self`, in that order.
    pub fn zyww(self) -> (r: GVec4<T>)
        ensures
            r == (GVec4 { x: self.z, y: self.y, z: self.w, w: self.w }),
    {
        GVec4::new(self.z, self.y, self.w, self.w)
    }

    /// Returns the components `zzxx` of `self`, in that order.
    pub fn zzxx(self) -> (r: GVec4<T>)
        ensures
            r == (GVec4 { x: self.z, y: self.z, z: self.x, w: self.x }),
    {
        GVec4::new(self.z, self.z, self.x, self.x)
    }

    /// Returns the components `zzxy` of `self`, in that order.
    pub fn zzxy(self) -> (r: GVec4<T>)
        ensures
            r == (GVec4 { x: self.z, y: self.z, z: self.x, w: self.y }),
    {
        GVec4::new(self.z, self.z, self.x, self.y)
    }

    /// Returns the components `zzxz` of `self`, in that order.
    pub fn zzxz(self) -> (r: GVec4<T>)
        ensures
            r == (GVec4 { x: self.z, y: self.z, z: self.x, w: self.z }),
    {
        GVec4::new(self.z, self.z, self.x, self.z)
    }

    /// Returns the components `zzxw` of `self`, in that order.
    pub fn zzxw(self) -> (r: GVec4<T>)
        ensures
            r == (GVec4 { x: self.z, y: self.z, z: self.x, w: self.w }),
    {
        GVec4::new(self.z, self.z, self.x, self.w)
    }

    /// Returns the components `zzyx` of `self`, in that order.
    pub fn zzyx(self) -> (r: GVec4<T>)
        ensures
            r == (GVec4 { x: self.z, y: self.z, z: self.y, w: self.x }),
    {
        GVec4::new(self.z, self.z, self.y, self.x)
    }

    /// Returns the components `zzyy` of `self`, in that order.
    pub fn zzyy(self) -> (r: GVec4<T>)
        ensures
            r == (GVec4 { x: self.z, y: self.z, z: self.y, w: self.y }),
    {
        GVec4::new(self.z, self.z, self.y, self.y)
    }

    /// Returns the components `zzyz` of `self`, in that order.
    pub fn zzyz(self) -> (r: GVec4<T>)
        ensures
            r == (GVec4 { x: self.z, y: self.z, z: self.y, w: self.z }),
    {
        GVec4::new(self.z, self.z, self.y, self.z)
    }

    /// Returns the components `zzyw` of `self`, in that order.
    pub fn zzyw(self) -> (r: GVec4<T>)
        ensures
            r == (GVec4 { x: self.z, y: self.z, z: self.y, w: self.w }),
    {
        GVec4::new(self.z, self.z, self.y, self.w)
    }

    /// Returns the components `zzzx` of `self`, in that order.
    pub fn zzzx(self) -> (r: GVec4<T>)
        ensures
            r == (GVec4 { x: self.z, y: self.z, z: self.z, w: self.x }),
    {
        GVec4::new(self.z, self.z, self.z, self.x)
    }

    /// Returns the components `zzzy` of `self`, in that order.
    pub fn zzzy(self) -> (r: GVec4<T>)
        ensures
            r == (GVec4 { x: self.z, y: self.z, z: self.z, w: self.y }),
    {
        GVec4::new(self.z, self.z, self.z, self.y)
    }

    /// Returns the components `zzzz` of `self`, in that order.
    pub fn zzzz(self) -> (r: GVec4<T>)
        ensures
            r == (GVec4 { x: self.z, y: self.z, z: self.z, w: self.z }),
    {
        GVec4::new(self.z, self.z, self.z, self.z)
    }

    /// Returns the components `zzzw` of `self`, in that order.
    pub fn zzzw(self) -> (r: GVec4<T>)
        ensures
            r == (GVec4 { x: self.z, y: self.z, z: self.z, w: self.w }),
    {
        GVec4::new(self.z, self.z, self.z, self.w)
    }

    /// Returns the components `zzwx` of `self`, in that order.
    pub fn zzwx(self) -> (r: GVec4<T>)
        ensures
            r == (GVec4 { x: self.z, y: self.z, z: self.w, w: self.x }),
    {
        GVec4::new(self.z, self.z, self.w, self.x)
    }

    /// Returns the components `zzwy` of `self`, in that order.
    pub fn zzwy(self) -> (r: GVec4<T>)
        ensures
            r == (GVec4 { x: self.z, y: self.z, z: self.w, w: self.y }),
    {
        GVec4::new(self.z, self.z, self.w, self.y)
    }

    /// Returns the components `zzwz` of `self`, in that order.
    pub fn zzwz(self) -> (r: GVec4<T>)
        ensures
            r == (GVec4 { x: self.z, y: self.z, z: self.w, w: self.z }),
    {
        GVec4::new(self.z, self.z, self.w, self.z)
    }

    /// Returns the components `zzww` of `self`, in that order.
    pub fn zzww(self) -> (r: GVec4<T>)
        ensures
            r == (GVec4 { x: self.z, y: self.z, z: self.w, w: self.w }),
    {
        GVec4::new(self.z, self.z, self.w, self.w)
    }

    /// Returns the components `zwxx` of `self`, in that order.
    pub fn zwxx(self) -> (r: GVec4<T>)
        ensures
            r == (GVec4 { x: self.z, y: self.w, z: self.x, w: self.x }),
    {
        GVec4::new(self.z, self.w, self.x, self.x)
    }

    /// Returns the components `zwxy` of `self`, in that order.
    pub fn zwxy(self) -> (r: GVec4<T>)
        ensures
            r == (GVec4 { x: self.z, y: self.w, z: self.x, w: self.y }),
    {
        GVec4::new(self.z, self.w, self.x, self.y)
    }

    /// Returns the components `zwxz` of `self`, in that order.
    pub fn zwxz(self) -> (r: GVec4<T>)
        ensures
            r == (GVec4 { x: self.z, y: self.w, z: self.x, w: self.z }),
    {
        GVec4::new(self.z, self.w, self.x, self.z)
    }

    /// Returns the components `zwxw` of `self`, in that order.
    pub fn zwxw(self) -> (r: GVec4<T>)
        ensures
            r == (GVec4 { x: self.z, y: self.w, z: self.x, w: self.w }),
    {
        GVec4::new(self.z, self.w, self.x, self.w)
    }

    /// Returns the components `zwyx` of `self`, in that order.
    pub fn zwyx(self) -> (r: GVec4<T>)
        ensures
            r == (GVec4 { x: self.z, y: self.w, z: self.y, w: self.x }),
    {
        GVec4::new(self.z, self.w, self.y, self.x)
    }

    /// Returns the components `zwyy` of `self`, in that order.
    pub fn zwyy(self) -> (r: GVec4<T>)
        ensures
            r == (GVec4 { x: self.z, y: self.w, z: self.y, w: self.y }),
    {
        GVec4::new(self.z, self.w, self.y, self.y)
    }

    /// Returns the components `zwyz` of `self`, in that order.
    pub fn zwyz(self) -> (r: GVec4<T>)
        ensures
            r == (GVec4 { x: self.z, y: self.w, z: self.y, w: self.z }),
    {
        GVec4::new(self.z, self.w, self.y, self.z)
    }

    /// Returns the components `zwyw` of `self`, in that order.
    pub fn zwyw(self) -> (r: GVec4<T>)
        ensures
            r == (GVec4 { x: self.z, y: self.w, z: self.y, w: self.w }),
    {
        GVec4::new(self.z, self.w, self.y, self.w)
    }

    /// Returns the components `zwzx` of `self`, in that order.
    pub fn zwzx(self) -> (r: GVec4<T>)
        ensures
            r == (GVec4 { x: self.z, y: self.w, z: self.z, w: self.x }),
    {
        GVec4::new(self.z, self.w, self.z, self.x)
    }

    /// Returns the components `zwzy` of `self`, in that order.
    pub fn zwzy(self) -> (r: GVec4<T>)
        ensures
            r == (GVec4 { x: self.z, y: self.w, z: self.z, w: self.y }),
    {
        GVec4::new(self.z, self.w, self.z, self.y)
    }

    /// Returns the components `zwzz` of `self`, in that order.
    pub fn zwzz(self) -> (r: GVec4<T>)
        ensures
            r == (GVec4 { x: self.z, y: self.w, z: self.z, w: self.z }),
    {
        GVec4::new(self.z, self.w, self.z, self.z)
    }

    /// Returns the components `zwzw` of `self`, in that order.
    pub fn zwzw(self) -> (r: GVec4<T>)
        ensures
            r == (GVec4 { x: self.z, y: self.w, z: self.z, w: self.w }),
    {
        GVec4::new(self.z, self.w, self.z, self.w)
    }

    /// Returns the components `zwwx` of `self`, in that order.
    pub fn zwwx(self) -> (r: GVec4<T>)
        ensures
            r == (GVec4 { x: self.z, y: self.w, z: self.w, w: self.x }),
    {
        GVec4::new(self.z, self.w, self.w, self.x)
    }

    /// Returns the components `zwwy` of `self`, in that order.
    pub fn zwwy(self) -> (r: GVec4<T>)
        ensures
            r == (GVec4 { x: self.z, y: self.w, z: self.w, w: self.y }),
    {
        GVec4::new(self.z, self.w, self.w, self.y)
    }

    /// Returns the components `zwwz` of `self`, in that order.
    pub fn zwwz(self) -> (r: GVec4<T>)
        ensures
            r == (GVec4 { x: self.z, y: self.w, z: self.w, w: self.z }),
    {
        GVec4::new(self.z, self.w, self.w, self.z)
    }

    /// Returns the components `zwww` of `self`, in that order.
    pub fn zwww(self) -> (r: GVec4<T>)
        ensures
            r == (GVec4 { x: self.z, y: self.w, z: self.w, w: self.w }),
    {
        GVec4::new(self.z, self.w, self.w, self.w)
    }

    /// Returns the components `wxxx` of `self`, in that order.
    pub fn wxxx(self) -> (r: GVec4<T>)
        ensures
            r == (GVec4 { x: self.w, y: self.x, z: self.x, w: self.x }),
    {
        GVec4::new(self.w, self.x, self.x, self.x)
    }

    /// Returns the components `wxxy` of `self`, in that order.
    pub fn wxxy(self) -> (r: GVec4<T>)
        ensures
            r == (GVec4 { x: self.w, y: self.x, z: self.x, w: self.y }),
    {
        GVec4::new(self.w, self.x, self.x, self.y)
    }

    /// Returns the components `wxxz` of `self`, in that order.
    pub fn wxxz(self) -> (r: GVec4<T>)
        ensures
            r == (GVec4 { x: self.w, y: self.x, z: self.x, w: self.z }),
    {
        GVec4::new(self.w, self.x, self.x, self.z)
    }

    /// Returns the components `wxxw` of `self`, in that order.
    pub fn wxxw(self) -> (r: GVec4<T>)
        ensures
            r == (GVec4 { x: self.w, y: self.x, z: self.x, w: self.w }),
    {
        GVec4::new(self.w, self.x, self.x, self.w)
    }

    /// Returns the components `wxyx` of `self`, in that order.
    pub fn wxyx(self) -> (r: GVec4<T>)
        ensures
            r == (GVec4 { x: self.w, y: self.x, z: self.y, w: self.x }),
    {
        GVec4::new(self.w, self.x, self.y, self.x)
    }

    /// Returns the components `wxyy` of `self`, in that order.
    pub fn wxyy(self) -> (r: GVec4<T>)
        ensures
            r == (GVec4 { x: self.w, y: self.x, z: self.y, w: self.y }),
    {
        GVec4::new(self.w, self.x, self.y, self.y)
    }

    /// Returns the components `wxyz` of `self`, in that order.
    pub fn wxyz(self) -> (r: GVec4<T>)
        ensures
            r == (GVec4 { x: self.w, y: self.x, z: self.y, w: self.z }),
    {
        GVec4::new(self.w, self.x, self.y, self.z)
    }

    /// Returns the components `wxyw` of `self`, in that order.
    pub fn wxyw(self) -> (r: GVec4<T>)
        ensures
            r == (GVec4 { x: self.w, y: self.x, z: self.y, w: self.w }),
    {
        GVec4::new(self.w, self.x, self.y, self.w)
    }

    /// Returns the components `wxzx` of `self`, in that order.
    pub fn wxzx(self) -> (r: GVec4<T>)
        ensures
            r == (GVec4 { x: self.w, y: self.x, z: self.z, w: self.x }),
    {
        GVec4::new(self.w, self.x, self.z, self.x)
    }

    /// Returns the components `wxzy` of `self`, in that order.
    pub fn wxzy(self) -> (r: GVec4<T>)
        ensures
            r == (GVec4 { x: self.w, y: self.x, z: self.z, w: self.y }),
    {
        GVec4::new(self.w, self.x, self.z, self.y)
    }

    /// Returns the components `wxzz` of `self`, in that order.
    pub fn wxzz(self) -> (r: GVec4<T>)
        ensures
            r == (GVec4 { x: self.w, y: self.x, z: self.z, w: self.z }),
    {
        GVec4::new(self.w, self.x, self.z, self.z)
    }

    /// Returns the components `wxzw` of `self`, in that order.
    pub fn wxzw(self) -> (r: GVec4<T>)
        ensures
            r == (GVec4 { x: self.w, y: self.x, z: self.z, w: self.w }),
    {
        GVec4::new(self.w, self.x, self.z, self.w)
    }

    /// Returns the components `wxwx` of `self`, in that order.
    pub fn wxwx(self) -> (r: GVec4<T>)
        ensures
            r == (GVec4 { x: self.w, y: self.x, z: self.w, w: self.x }),
    {
        GVec4::new(self.w, self.x, self.w, self.x)
    }

    /// Returns the components `wxwy` of `self`, in that order.
    pub fn wxwy(self) -> (r: GVec4<T>)
        ensures
            r == (GVec4 { x: self.w, y: self.x, z: self.w, w: self.y }),
    {
        GVec4::new(self.w, self.x, self.w, self.y)
    }

    /// Returns the components `wxwz` of `self`, in that order.
    pub fn wxwz(self) -> (r: GVec4<T>)
        ensures
            r == (GVec4 { x: self.w, y: self.x, z: self.w, w: self.z }),
    {
        GVec4::new(self.w, self.x, self.w, self.z)
    }

    /// Returns the components `wxww` of `self`, in that order.
    pub fn wxww(self) -> (r: GVec4<T>)
        ensures
            r == (GVec4 { x: self.w, y: self.x, z: self.w, w: self.w }),
    {
        GVec4::new(self.w, self.x, self.w, self.w)
    }

    /// Returns the components `wyxx` of `self`, in that order.
    pub fn wyxx(self) -> (r: GVec4<T>)
        ensures
            r == (GVec4 { x: self.w, y: self.y, z: self.x, w: self.x }),
    {
        GVec4::new(self.w, self.y, self.x, self.x)
    }

    /// Returns the components `wyxy` of `self`, in that order.
    pub fn wyxy(self) -> (r: GVec4<T>)
        ensures
            r == (GVec4 { x: self.w, y: self.y, z: self.x, w: self.y }),
    {
        GVec4::new(self.w, self.y, self.x, self.y)
    }

    /// Returns the components `wyxz` of `self`, in that order.
    pub fn wyxz(self) -> (r: GVec4<T>)
        ensures
            r == (GVec4 { x: self.w, y: self.y, z: self.x, w: self.z }),
    {
        GVec4::new(self.w, self.y, self.x, self.z)
    }

    /// Returns the components `wyxw` of `self`, in that order.
    pub fn wyxw(self) -> (r: GVec4<T>)
        ensures
            r == (GVec4 { x: self.w, y: self.y, z: self.x, w: self.w }),
    {
        GVec4::new(self.w, self.y, self.x, self.w)
    }

    /// Returns the components `wyyx` of `self`, in that order.
    pub fn wyyx(self) -> (r: GVec4<T>)
        ensures
            r == (GVec4 { x: self.w, y: self.y, z: self.y, w: self.x }),
    {
        GVec4::new(self.w, self.y, self.y, self.x)
    }

    /// Returns the components `wyyy` of `self`, in that order.
    pub fn wyyy(self) -> (r: GVec4<T>)
        ensures
            r == (GVec4 { x: self.w, y: self.y, z: self.y, w: self.y }),
    {
        GVec4::new(self.w, self.y, self.y, self.y)
    }

    /// Returns the components `wyyz` of `self`, in that order.
    pub fn wyyz(self) -> (r: GVec4<T>)
        ensures
            r == (GVec4 { x: self.w, y: self.y, z: self.y, w: self.z }),
    {
        GVec4::new(self.w, self.y, self.y, self.z)
    }

    /// Returns the components `wyyw` of `self`, in that order.
    pub fn wyyw(self) -> (r: GVec4<T>)
        ensures
            r == (GVec4 { x: self.w, y: self.y, z: self.y, w: self.w }),
    {
        GVec4::new(self.w, self.y, self.y, self.w)
    }

    /// Returns the components `wyzx` of `self`, in that order.
    pub fn wyzx(self) -> (r: GVec4<T>)
        ensures
            r == (GVec4 { x: self.w, y: self.y, z: self.z, w: self.x }),
    {
        GVec4::new(self.w, self.y, self.z, self.x)
    }

    /// Returns the components `wyzy` of `self`, in that order.
    pub fn wyzy(self) -> (r: GVec4<T>)
        ensures
            r == (GVec4 { x: self.w, y: self.y, z: self.z, w: self.y }),
    {
        GVec4::new(self.w, self.y, self.z, self.y)
    }

    /// Returns the components `wyzz` of `self`, in that order.
    pub fn wyzz(self) -> (r: GVec4<T>)
        ensures
            r == (GVec4 { x: self.w, y: self.y, z: self.z, w: self.z }),
    {
        GVec4::new(self.w, self.y, self.z, self.z)
    }

    /// Returns the components `wyzw` of `self`, in that order.
    pub fn wyzw(self) -> (r: GVec4<T>)
        ensures
            r == (GVec4 { x: self.w, y: self.y, z: self.z, w: self.w }),
    {
        GVec4::new(self.w, self.y, self.z, self.w)
    }

    /// Returns the components `wywx` of `self`, in that order.
    pub fn wywx(self) -> (r: GVec4<T>)
        ensures
            r == (GVec4 { x: self.w, y: self.y, z: self.w, w: self.x }),
    {
        GVec4::new(self.w, self.y, self.w, self.x)
    }

    /// Returns the components `wywy` of `self`, in that order.
    pub fn wywy(self) -> (r: GVec4<T>)
        ensures
            r == (GVec4 { x: self.w, y: self.y, z: self.w, w: self.y }),
    {
        GVec4::new(self.w, self.y, self.w, self.y)
    }

    /// Returns the components `wywz` of `self`, in that order.
    pub fn wywz(self) -> (r: GVec4<T>)
        ensures
            r == (GVec4 { x: self.w, y: self.y, z: self.w, w: self.z }),
    {
        GVec4::new(self.w, self.y, self.w, self.z)
    }

    /// Returns the components `wyww` of `self`, in that order.
    pub fn wyww(self) -> (r: GVec4<T>)
        ensures
            r == (GVec4 { x: self.w, y: self.y, z: self.w, w: self.w }),
    {
        GVec4::new(self.w, self.y, self.w, self.w)
    }

    /// Returns the components `wzxx` of `self`, in that order.
    pub fn wzxx(self) -> (r: GVec4<T>)
        ensures
            r == (GVec4 { x: self.w, y: self.z, z: self.x, w: self.x }),
    {
        GVec4::new(self.w, self.z, self.x, self.x)
    }

    /// Returns the components `wzxy` of `self`, in that order.
    pub fn wzxy(self) -> (r: GVec4<T>)
        ensures
            r == (GVec4 { x: self.w, y: self.z, z: self.x, w: self.y }),
    {
        GVec4::new(self.w, self.z, self.x, self.y)
    }

    /// Returns the components `wzxz` of `self`, in that order.
    pub fn wzxz(self) -> (r: GVec4<T>)
        ensures
            r == (GVec4 { x: self.w, y: self.z, z: self.x, w: self.z }),
    {
        GVec4::new(self.w, self.z, self.x, self.z)
    }

    /// Returns the components `wzxw` of `self`, in that order.
    pub fn wzxw(self) -> (r: GVec4<T>)
        ensures
            r == (GVec4 { x: self.w, y: self.z, z: self.x, w: self.w }),
    {
        GVec4::new(self.w, self.z, self.x, self.w)
    }

    /// Returns the components `wzyx` of `self`, in that order.
    pub fn wzyx(self) -> (r: GVec4<T>)
        ensures
            r == (GVec4 { x: self.w, y: self.z, z: self.y, w: self.x }),
    {
        GVec4::new(self.w, self.z, self.y, self.x)
    }

    /// Returns the components `wzyy` of `self`, in that order.
    pub fn wzyy(self) -> (r: GVec4<T>)
        ensures
            r == (GVec4 { x: self.w, y: self.z, z: self.y, w: self.y }),
    {
        GVec4::new(self.w, self.z, self.y, self.y)
    }

    /// Returns the components `wzyz` of `self`, in that order.
    pub fn wzyz(self) -> (r: GVec4<T>)
        ensures
            r == (GVec4 { x: self.w, y: self.z, z: self.y, w: self.z }),
    {
        GVec4::new(self.w, self.z, self.y, self.z)
    }

    /// Returns the components `wzyw` of `self`, in that order.
    pub fn wzyw(self) -> (r: GVec4<T>)
        ensures
            r == (GVec4 { x: self.w, y: self.z, z: self.y, w: self.w }),
    {
        GVec4::new(self.w, self.z, self.y, self.w)
    }

    /// Returns the components `wzzx` of `self`, in that order.
    pub fn wzzx(self) -> (r: GVec4<T>)
        ensures
            r == (GVec4 { x: self.w, y: self.z, z: self.z, w: self.x }),
    {
        GVec4::new(self.w, self.z, self.z, self.x)
    }

    /// Returns the components `wzzy` of `self`, in that order.
    pub fn wzzy(self) -> (r: GVec4<T>)
        ensures
            r == (GVec4 { x: self.w, y: self.z, z: self.z, w: self.y }),
    {
        GVec4::new(self.w, self.z, self.z, self.y)
    }

    /// Returns the components `wzzz` of `self`, in that order.
    pub fn wzzz(self) -> (r: GVec4<T>)
        ensures
            r == (GVec4 { x: self.w, y: self.z, z: self.z, w: self.z }),
    {
        GVec4::new(self.w, self.z, self.z, self.z)
    }

    /// Returns the components `wzzw` of `self`, in that order.
    pub fn wzzw(self) -> (r: GVec4<T>)
        ensures
            r == (GVec4 { x: self.w, y: self.z, z: self.z, w: self.w }),
    {
        GVec4::new(self.w, self.z, self.z, self.w)
    }

    /// Returns the components `wzwx` of `self`, in that order.
    pub fn wzwx(self) -> (r: GVec4<T>)
        ensures
            r == (GVec4 { x: self.w, y: self.z, z: self.w, w: self.x }),
    {
        GVec4::new(self.w, self.z, self.w, self.x)
    }

    /// Returns the components `wzwy` of `self`, in that order.
    pub fn wzwy(self) -> (r: GVec4<T>)
        ensures
            r == (GVec4 { x: self.w, y: self.z, z: self.w, w: self.y }),
    {
        GVec4::new(self.w, self.z, self.w, self.y)
    }

    /// Returns the components `wzwz` of `self`, in that order.
    pub fn wzwz(self) -> (r: GVec4<T>)
        ensures
            r == (GVec4 { x: self.w, y: self.z, z: self.w, w: self.z }),
    {
        GVec4::new(self.w, self.z, self.w, self.z)
    }

    /// Returns the components `wzww` of `self`, in that order.
    pub fn wzww(self) -> (r: GVec4<T>)
        ensures
            r == (GVec4 { x: self.w, y: self.z, z: self.w, w: self.w }),
    {
        GVec4::new(self.w, self.z, self.w, self.w)
    }

    /// Returns the components `wwxx` of `self`, in that order.
    pub fn wwxx(self) -> (r: GVec4<T>)
        ensures
            r == (GVec4 { x: self.w, y: self.w, z: self.x, w: self.x }),
    {
        GVec4::new(self.w, self.w, self.x, self.x)
    }

    /// Returns the components `wwxy` of `self`, in that order.
    pub fn wwxy(self) -> (r: GVec4<T>)
        ensures
            r == (GVec4 { x: self.w, y: self.w, z: self.x, w: self.y }),
    {
        GVec4::new(self.w, self.w, self.x, self.y)
    }

    /// Returns the components `wwxz` of `self`, in that order.
    pub fn wwxz(self) -> (r: GVec4<T>)
        ensures
            r == (GVec4 { x: self.w, y: self.w, z: self.x, w: self.z }),
    {
        GVec4::new(self.w, self.w, self.x, self.z)
    }

    /// Returns the components `wwxw` of `self`, in that order.
    pub fn wwxw(self) -> (r: GVec4<T>)
        ensures
            r == (GVec4 { x: self.w, y: self.w, z: self.x, w: self.w }),
    {
        GVec4::new(self.w, self.w, self.x, self.w)
    }

    /// Returns the components `wwyx` of `self`, in that order.
    pub fn wwyx(self) -> (r: GVec4<T>)
        ensures
            r == (GVec4 { x: self.w, y: self.w, z: self.y, w: self.x }),
    {
        GVec4::new(self.w, self.w, self.y, self.x)
    }

    /// Returns the components `wwyy` of `self`, in that order.
    pub fn wwyy(self) -> (r: GVec4<T>)
        ensures
            r == (GVec4 { x: self.w, y: self.w, z: self.y, w: self.y }),
    {
        GVec4::new(self.w, self.w, self.y, self.y)
    }

    /// Returns the components `wwyz` of `self`, in that order.
    pub fn wwyz(self) -> (r: GVec4<T>)
        ensures
            r == (GVec4 { x: self.w, y: self.w, z: self.y, w: self.z }),
    {
        GVec4::new(self.w, self.w, self.y, self.z)
    }

    /// Returns the components `wwyw` of `self`, in that order.
    pub fn wwyw(self) -> (r: GVec4<T>)
        ensures
            r == (GVec4 { x: self.w, y: self.w, z: self.y, w: self.w }),
    {
        GVec4::new(self.w, self.w, self.y, self.w)
    }

    /// Returns the components `wwzx` of `self`, in that order.
    pub fn wwzx(self) -> (r: GVec4<T>)
        ensures
            r == (GVec4 { x: self.w, y: self.w, z: self.z, w: self.x }),
    {
        GVec4::new(self.w, self.w, self.z, self.x)
    }

    /// Returns the components `wwzy` of `self`, in that order.
    pub fn wwzy(self) -> (r: GVec4<T>)
        ensures
            r == (GVec4 { x: self.w, y: self.w, z: self.z, w: self.y }),
    {
        GVec4::new(self.w, self.w, self.z, self.y)
    }

    /// Returns the components `wwzz` of `self`, in that order.
    pub fn wwzz(self) -> (r: GVec4<T>)
        ensures
            r == (GVec4 { x: self.w, y: self.w, z: self.z, w: self.z }),
    {
        GVec4::new(self.w, self.w, self.z, self.z)
    }

    /// Returns the components `wwzw` of `self`, in that order.
    pub fn wwzw(self) -> (r: GVec4<T>)
        ensures
            r == (GVec4 { x: self.w, y: self.w, z: self.z, w: self.w }),
    {
        GVec4::new(self.w, self.w, self.z, self.w)
    }

    /// Returns the components `wwwx` of `self`, in that order.
    pub fn wwwx(self) -> (r: GVec4<T>)
        ensures
            r == (GVec4 { x: self.w, y: self.w, z: self.w, w: self.x }),
    {
        GVec4::new(self.w, self.w, self.w, self.x)
    }

    /// Returns the components `wwwy` of `self`, in that order.
    pub fn wwwy(self) -> (r: GVec4<T>)
        ensures
            r == (GVec4 { x: self.w, y: self.w, z: self.w, w: self.y }),
    {
        GVec4::new(self.w, self.w, self.w, self.y)
    }

    /// Returns the components `wwwz` of `self`, in that order.
    pub fn wwwz(self) -> (r: GVec4<T>)
        ensures
            r == (GVec4 { x: self.w, y: self.w, z: self.w, w: self.z }),
    {
        GVec4::new(self.w, self.w, self.w, self.z)
    }

    /// Returns the components `wwww` of `self`, in that order.
    pub fn wwww(self) -> (r: GVec4<T>)
        ensures
            r == (GVec4 { x: self.w, y: self.w, z: self.w, w: self.w }),
    {
        GVec4::new(self.w, self.w, self.w, self.w)
    }
}

} // verus!
