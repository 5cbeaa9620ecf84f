//! Choice of the coordinate frame from the ray's direction.

use vstd::prelude::*;
use crate::single::{Single, INFINITY_BITS};

verus! {

/// Three single-precision components, addressed by axis 0, 1 and 2.
#[derive(Clone, Copy, Debug)]
pub struct Vector3 {
    pub x: Single,
    pub y: Single,
    pub z: Single,
}

impl Vector3 {
    /// The component on `axis`; every axis above 1 reads `z`.
    pub open spec fn at(self, axis: int) -> Single {
        if axis == 0 {
            self.x
        } else if axis == 1 {
            self.y
        } else {
            self.z
        }
    }

    /// Whether some component is a NaN.
    pub open spec fn has_nan(self) -> bool {
        self.x.is_nan() || self.y.is_nan() || self.z.is_nan()
    }

    /// The vector of three bit patterns.
    pub fn from_bits(x: u32, y: u32, z: u32) -> (v: Vector3)
        ensures
            v.x.bits == x,
            v.y.bits == y,
            v.z.bits == z,
    {
        Vector3 { x: Single { bits: x }, y: Single { bits: y }, z: Single { bits: z } }
    }

    /// The component on `axis`.
    pub fn component(&self, axis: usize) -> (f: Single)
        requires
            axis < 3,
        ensures
            f == self.at(axis as int),
    {
        if axis == 0 {
            self.x
        } else if axis == 1 {
            self.y
        } else {
            self.z
        }
    }
}

/// The comparison `a.abs() >= b.abs()`: false as soon as either is a NaN, else
/// the order of the magnitudes, which for IEEE-754 patterns is the order of the
/// absolute values.
pub open spec fn abs_ge(a: Single, b: Single) -> bool {
    !a.is_nan() && !b.is_nan() && a.magnitude() >= b.magnitude()
}

/// The axis that `dominant_axis` selects.
pub open spec fn dominant(v: Vector3) -> int {
    if abs_ge(v.x, v.y) && abs_ge(v.x, v.z) {
        0
    } else if abs_ge(v.y, v.x) && abs_ge(v.y, v.z) {
        1
    } else {
        2
    }
}

/// The axis along which `v` is largest in absolute value. Among equal
/// components the earliest axis wins. A vector with a NaN in any place has no
/// largest component, and axis 2 is returned for it.
pub fn dominant_axis(v: Vector3) -> (k: usize)
    ensures
        k == dominant(v),
        k < 3,
        v.has_nan() ==> k == 2,
        !v.has_nan() ==> forall|j: int| 0 <= j < 3 ==> v.at(j).magnitude() <= v.at(k as int).magnitude(),
        !v.has_nan() ==> forall|j: int| 0 <= j < k ==> v.at(j).magnitude() < v.at(k as int).magnitude(),
{
    let x: u32 = v.x.abs().bits;
    let y: u32 = v.y.abs().bits;
    let z: u32 = v.z.abs().bits;
    if x > INFINITY_BITS || y > INFINITY_BITS || z > INFINITY_BITS {
        2
    } else if x >= y && x >= z {
        0
    } else if y >= x && y >= z {
        1
    } else {
        2
    }
}

/// The dominant component is smaller than the machine epsilon exactly when
/// all three are, for a direction without a NaN. With a NaN in it the
/// implication from all three to the dominant one still holds, vacuously: a NaN
/// is never that small.
pub proof fn lemma_dominant_tiny(v: Vector3)
    ensures
        v.x.is_tiny() && v.y.is_tiny() && v.z.is_tiny() ==> v.at(dominant(v)).is_tiny(),
        !v.has_nan() && v.at(dominant(v)).is_tiny() ==> v.x.is_tiny() && v.y.is_tiny() && v.z.is_tiny(),
{
}

/// The frame of one intersection test: `kz` is the axis the ray runs along
/// after the shear, `kx` and `ky` span the plane the triangle is projected to.
#[derive(Clone, Copy, Debug, PartialEq, Eq, Structural)]
pub struct Axes {
    pub kx: usize,
    pub ky: usize,
    pub kz: usize,
}

impl Axes {
    /// The three fields name the three axes, each once.
    pub open spec fn wf(self) -> bool {
        &&& self.kx < 3
        &&& self.ky < 3
        &&& self.kz < 3
        &&& self.kx != self.ky
        &&& self.ky != self.kz
        &&& self.kx != self.kz
    }

    /// `(kx, ky, kz)` is a rotation of `(0, 1, 2)`: the frame has the
    /// handedness of the axes it was taken from.
    pub open spec fn cyclic(self) -> bool {
        &&& self.ky == (self.kx + 1) % 3
        &&& self.kz == (self.ky + 1) % 3
    }

    /// `(kx, ky, kz)` is a rotation of `(1, 0, 2)`: the frame is mirrored.
    pub open spec fn mirrored(self) -> bool {
        &&& self.kx == (self.ky + 1) % 3
        &&& self.kz == (self.kx + 1) % 3
    }
}

/// The frame for a ray along `direction`.
pub open spec fn axes_for(direction: Vector3) -> Axes {
    let kz = dominant(direction);
    if direction.at(kz).is_negative() {
        Axes { kx: ((kz + 2) % 3) as usize, ky: ((kz + 1) % 3) as usize, kz: kz as usize }
    } else {
        Axes { kx: ((kz + 1) % 3) as usize, ky: ((kz + 2) % 3) as usize, kz: kz as usize }
    }
}

/// Chooses the frame for a ray along `direction`: `kz` is the dominant axis,
/// `kx` and `ky` follow it in rotation, and the two are exchanged where the
/// dominant component is negative. The exchange undoes the mirroring that the
/// division by a negative component brings, so a triangle keeps its winding as
/// seen along the ray.
pub fn select_axes(direction: Vector3) -> (axes: Axes)
    ensures
        axes == axes_for(direction),
        axes.wf(),
        axes.kz == dominant(direction),
        axes.cyclic() <==> !direction.at(axes.kz as int).is_negative(),
        axes.mirrored() <==> direction.at(axes.kz as int).is_negative(),
{
    let kz: usize = dominant_axis(direction);
    let kx: usize = (kz + 1) % 3;
    let ky: usize = (kx + 1) % 3;
    if direction.component(kz).lt_zero() {
        Axes { kx: ky, ky: kx, kz }
    } else {
        Axes { kx, ky, kz }
    }
}

} // verus!
