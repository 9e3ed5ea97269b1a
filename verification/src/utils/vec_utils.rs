//! Three- and four-component vectors over any component type, and the
//! conversions between them.

use vstd::prelude::*;

verus! {

/// A vector of three components.
#[derive(Clone, Copy, Debug, PartialEq)]
pub struct Vec3<T> {
    pub x: T,
    pub y: T,
    pub z: T,
}

/// A vector of four components. With `w` it holds a homogeneous position
/// (`w` one) or a direction (`w` zero).
#[derive(Clone, Copy, Debug, PartialEq)]
pub struct Vec4<T> {
    pub x: T,
    pub y: T,
    pub z: T,
    pub w: T,
}

impl<T> Vec4<T> {
    /// The component at `index`, counting `x`, `y`, `z`, `w` from zero.
    pub open spec fn component(self, index: int) -> T {
        if index == 0 {
            self.x
        } else if index == 1 {
            self.y
        } else if index == 2 {
            self.z
        } else {
            self.w
        }
    }

    /// The four components as a sequence, in the order `x`, `y`, `z`, `w`.
    pub open spec fn components(self) -> Seq<T> {
        seq![self.x, self.y, self.z, self.w]
    }
}

/// Extends `v3` by the fourth component `w`.
pub fn vec3_to_vec4<T>(v3: Vec3<T>, w: T) -> (v4: Vec4<T>)
    ensures
        v4 == (Vec4 { x: v3.x, y: v3.y, z: v3.z, w }),
{
    Vec4 { x: v3.x, y: v3.y, z: v3.z, w }
}

/// Drops the fourth component of `v4`.
pub fn vec4_to_vec3<T>(v4: Vec4<T>) -> (v3: Vec3<T>)
    ensures
        v3 == (Vec3 { x: v4.x, y: v4.y, z: v4.z }),
{
    Vec3 { x: v4.x, y: v4.y, z: v4.z }
}

/// Extends the vector behind `v3` by the fourth component `w`.
pub fn vec3_ref_to_vec4<T: Copy>(v3: &Vec3<T>, w: T) -> (v4: Vec4<T>)
    ensures
        v4 == (Vec4 { x: v3.x, y: v3.y, z: v3.z, w }),
{
    Vec4 { x: v3.x, y: v3.y, z: v3.z, w }
}

/// Drops the fourth component of the vector behind `v4`.
pub fn vec4_ref_to_vec3<T: Copy>(v4: &Vec4<T>) -> (v3: Vec3<T>)
    ensures
        v3 == (Vec3 { x: v4.x, y: v4.y, z: v4.z }),
{
    Vec3 { x: v4.x, y: v4.y, z: v4.z }
}

/// The cross product of two vectors of whole numbers.
pub open spec fn cross(a: Vec3<int>, b: Vec3<int>) -> Vec3<int> {
    Vec3 { x: a.y * b.z - a.z * b.y, y: a.z * b.x - a.x * b.z, z: a.x * b.y - a.y * b.x }
}

/// The dot product of two vectors of whole numbers.
pub open spec fn dot(a: Vec3<int>, b: Vec3<int>) -> int {
    a.x * b.x + a.y * b.y + a.z * b.z
}

/// In exact arithmetic the cross product of two vectors is at right angles
/// to both of them.
pub proof fn lemma_cross_orthogonal(a: Vec3<int>, b: Vec3<int>)
    ensures
        dot(cross(a, b), a) == 0,
        dot(cross(a, b), b) == 0,
{
    assert(dot(cross(a, b), a) == 0) by (nonlinear_arith)
        requires
            dot(cross(a, b), a) == (a.y * b.z - a.z * b.y) * a.x + (a.z * b.x - a.x * b.z) * a.y + (
            a.x * b.y - a.y * b.x) * a.z,
    ;
    assert(dot(cross(a, b), b) == 0) by (nonlinear_arith)
        requires
            dot(cross(a, b), b) == (a.y * b.z - a.z * b.y) * b.x + (a.z * b.x - a.x * b.z) * b.y + (
            a.x * b.y - a.y * b.x) * b.z,
    ;
}

} // verus!
