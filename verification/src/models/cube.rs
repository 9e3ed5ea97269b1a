//! A cube with corners at plus and minus one, as fixed tables.
//!
//! Every entry of the tables is minus one, zero or one, so they are kept as
//! small integers; each converts to floating point without loss.

use vstd::prelude::*;
use vstd::slice::slice_to_vec;
use crate::utils::vec_utils::Vec4;
use crate::models::model::{DrawCall, Model, ModelParams};

verus! {

/// The number of triangle vertices of the cube: six faces of two triangles.
pub const CUBE_VERTEX_COUNT: usize = 36;

/// The position of each triangle vertex, four components each: the corners
/// of the cube at plus and minus one, with `w` one.
pub const CUBE_VERTICES: [i8; 144] = [
     1, -1, -1,  1,
    -1,  1, -1,  1,
    -1, -1, -1,  1,

     1, -1, -1,  1,
     1,  1, -1,  1,
    -1,  1, -1,  1,

    -1, -1,  1,  1,
     1,  1,  1,  1,
     1, -1,  1,  1,

    -1, -1,  1,  1,
    -1,  1,  1,  1,
     1,  1,  1,  1,

     1, -1,  1,  1,
     1,  1, -1,  1,
     1, -1, -1,  1,

     1, -1,  1,  1,
     1,  1,  1,  1,
     1,  1, -1,  1,

    -1, -1, -1,  1,
    -1,  1,  1,  1,
    -1, -1,  1,  1,

    -1, -1, -1,  1,
    -1,  1, -1,  1,
    -1,  1,  1,  1,

    -1, -1, -1,  1,
     1, -1,  1,  1,
     1, -1, -1,  1,

    -1, -1, -1,  1,
    -1, -1,  1,  1,
     1, -1,  1,  1,

    -1,  1,  1,  1,
     1,  1, -1,  1,
     1,  1,  1,  1,

    -1,  1,  1,  1,
    -1,  1, -1,  1,
     1,  1, -1,  1,
];

/// The colour of each triangle vertex as red, green, blue and alpha, each
/// zero or one: one colour for each face.
pub const CUBE_COLORS: [i8; 144] = [
     1,  0,  0,  1,
     1,  0,  0,  1,
     1,  0,  0,  1,

     1,  0,  0,  1,
     1,  0,  0,  1,
     1,  0,  0,  1,

     0,  1,  0,  1,
     0,  1,  0,  1,
     0,  1,  0,  1,

     0,  1,  0,  1,
     0,  1,  0,  1,
     0,  1,  0,  1,

     0,  0,  1,  1,
     0,  0,  1,  1,
     0,  0,  1,  1,

     0,  0,  1,  1,
     0,  0,  1,  1,
     0,  0,  1,  1,

     1,  1,  0,  1,
     1,  1,  0,  1,
     1,  1,  0,  1,

     1,  1,  0,  1,
     1,  1,  0,  1,
     1,  1,  0,  1,

     0,  1,  1,  1,
     0,  1,  1,  1,
     0,  1,  1,  1,

     0,  1,  1,  1,
     0,  1,  1,  1,
     0,  1,  1,  1,

     1,  1,  1,  1,
     1,  1,  1,  1,
     1,  1,  1,  1,

     1,  1,  1,  1,
     1,  1,  1,  1,
     1,  1,  1,  1,
];

/// The face normal of each triangle vertex, four components each, with `w`
/// zero.
pub const CUBE_NORMALS: [i8; 144] = [
     0,  0, -1,  0,
     0,  0, -1,  0,
     0,  0, -1,  0,

     0,  0, -1,  0,
     0,  0, -1,  0,
     0,  0, -1,  0,

     0,  0,  1,  0,
     0,  0,  1,  0,
     0,  0,  1,  0,

     0,  0,  1,  0,
     0,  0,  1,  0,
     0,  0,  1,  0,

     1,  0,  0,  0,
     1,  0,  0,  0,
     1,  0,  0,  0,

     1,  0,  0,  0,
     1,  0,  0,  0,
     1,  0,  0,  0,

    -1,  0,  0,  0,
    -1,  0,  0,  0,
    -1,  0,  0,  0,

    -1,  0,  0,  0,
    -1,  0,  0,  0,
    -1,  0,  0,  0,

     0, -1,  0,  0,
     0, -1,  0,  0,
     0, -1,  0,  0,

     0, -1,  0,  0,
     0, -1,  0,  0,
     0, -1,  0,  0,

     0,  1,  0,  0,
     0,  1,  0,  0,
     0,  1,  0,  0,

     0,  1,  0,  0,
     0,  1,  0,  0,
     0,  1,  0,  0,
];

/// The smooth normal of each triangle vertex: the direction from the centre
/// to the corner, not normalised, with `w` zero.
pub const CUBE_VERTEX_NORMALS: [i8; 144] = [
     1, -1, -1,  0,
    -1,  1, -1,  0,
    -1, -1, -1,  0,

     1, -1, -1,  0,
     1,  1, -1,  0,
    -1,  1, -1,  0,

    -1, -1,  1,  0,
     1,  1,  1,  0,
     1, -1,  1,  0,

    -1, -1,  1,  0,
    -1,  1,  1,  0,
     1,  1,  1,  0,

     1, -1,  1,  0,
     1,  1, -1,  0,
     1, -1, -1,  0,

     1, -1,  1,  0,
     1,  1,  1,  0,
     1,  1, -1,  0,

    -1, -1, -1,  0,
    -1,  1,  1,  0,
    -1, -1,  1,  0,

    -1, -1, -1,  0,
    -1,  1, -1,  0,
    -1,  1,  1,  0,

    -1, -1, -1,  0,
     1, -1,  1,  0,
     1, -1, -1,  0,

    -1, -1, -1,  0,
    -1, -1,  1,  0,
     1, -1,  1,  0,

    -1,  1,  1,  0,
     1,  1, -1,  0,
     1,  1,  1,  0,

    -1,  1,  1,  0,
    -1,  1, -1,  0,
     1,  1, -1,  0,
];

/// The texture coordinates of each triangle vertex, two components each.
pub const CUBE_TEX_COORDS: [i8; 72] = [
     1,  1,  0,  0,  0,  1,
     1,  1,  1,  0,  0,  0,

     1,  1,  0,  0,  0,  1,
     1,  1,  1,  0,  0,  0,

     1,  1,  0,  0,  0,  1,
     1,  1,  1,  0,  0,  0,

     1,  1,  0,  0,  0,  1,
     1,  1,  1,  0,  0,  0,

     1,  1,  0,  0,  0,  1,
     1,  1,  1,  0,  0,  0,

     1,  1,  0,  0,  0,  1,
     1,  1,  1,  0,  0,  0,
];

/// The face normal of triangle vertex `i`, as the table holds it.
pub open spec fn cube_normal(i: int) -> Vec4<i8> {
    Vec4 {
        x: CUBE_NORMALS[4 * i],
        y: CUBE_NORMALS[4 * i + 1],
        z: CUBE_NORMALS[4 * i + 2],
        w: CUBE_NORMALS[4 * i + 3],
    }
}

/// `v` is a direction along one axis, of length one: `w` is zero, one of
/// `x`, `y`, `z` is one or minus one, and the other two are zero.
pub open spec fn is_axis_unit(v: Vec4<i8>) -> bool {
    &&& v.w == 0
    &&& {
        ||| (v.x == 1 || v.x == -1) && v.y == 0 && v.z == 0
        ||| v.x == 0 && (v.y == 1 || v.y == -1) && v.z == 0
        ||| v.x == 0 && v.y == 0 && (v.z == 1 || v.z == -1)
    }
}

/// The triangle vertices whose face normal is `direction`.
pub open spec fn vertices_with_normal(direction: Vec4<i8>) -> Set<int> {
    Set::new(|i: int| 0 <= i < CUBE_VERTEX_COUNT && cube_normal(i) == direction)
}

/// The face that the axis direction `v` points out of, in the order of the
/// tables.
pub open spec fn face_of_direction(v: Vec4<i8>) -> int {
    if v.z == -1 {
        0
    } else if v.z == 1 {
        1
    } else if v.x == 1 {
        2
    } else if v.x == -1 {
        3
    } else if v.y == -1 {
        4
    } else {
        5
    }
}

/// Every face normal of the cube is a unit vector along an axis.
pub proof fn lemma_cube_normals_axis_aligned(i: int)
    requires
        0 <= i < CUBE_VERTEX_COUNT,
    ensures
        is_axis_unit(cube_normal(i)),
{
}

/// Each of the six unit vectors along an axis is the face normal of exactly
/// six triangle vertices: those of one face.
pub proof fn lemma_cube_normal_six_times(direction: Vec4<i8>)
    requires
        is_axis_unit(direction),
    ensures
        vertices_with_normal(direction).finite(),
        vertices_with_normal(direction).len() == 6,
        forall|i: int|
            vertices_with_normal(direction).contains(i) <==> 6 * face_of_direction(direction) <= i
                < 6 * face_of_direction(direction) + 6,
{
    let face = face_of_direction(direction);
    assert forall|i: int|
        vertices_with_normal(direction).contains(i) <==> 6 * face <= i < 6 * face + 6 by {
        if 0 <= i < 36 {
            lemma_cube_normals_axis_aligned(i);
        }
    }
    assert(vertices_with_normal(direction) =~= vstd::set_lib::set_int_range(
        6 * face,
        6 * face + 6,
    ));
    vstd::set_lib::lemma_int_range(6 * face, 6 * face + 6);
}

/// For each of the cube's vertices the four components of the vertex, then the
/// four components of its normal, in one array.
pub open spec fn intertwined_arrays<T>(vertices: Seq<T>, normals: Seq<T>, i: int) -> T {
    if i % 8 < 4 {
        vertices[4 * (i / 8) + i % 8]
    } else {
        normals[4 * (i / 8) + i % 8 - 4]
    }
}

/// Intertwines the vertex and normal data of the cube into one flat array:
/// for each vertex its four components, then the four of its normal.
pub fn intertwine_arrays<T: Copy>(vertices: &[T], normals: &[T]) -> (result: [T; 288])
    requires
        vertices@.len() >= 4 * CUBE_VERTEX_COUNT,
        normals@.len() >= 4 * CUBE_VERTEX_COUNT,
    ensures
        forall|i: int| 0 <= i < 288 ==> result[i] == intertwined_arrays(vertices@, normals@, i),
{
    let mut result = [vertices[0];288];
    let mut i: usize = 0;
    while i < CUBE_VERTEX_COUNT
        invariant
            i <= CUBE_VERTEX_COUNT,
            vertices@.len() >= 4 * CUBE_VERTEX_COUNT,
            normals@.len() >= 4 * CUBE_VERTEX_COUNT,
            forall|j: int|
                0 <= j < 8 * i ==> result[j] == intertwined_arrays(vertices@, normals@, j),
        decreases CUBE_VERTEX_COUNT - i,
    {
        result[i * 8] = vertices[i * 4];
        result[i * 8 + 1] = vertices[i * 4 + 1];
        result[i * 8 + 2] = vertices[i * 4 + 2];
        result[i * 8 + 3] = vertices[i * 4 + 3];

        result[i * 8 + 4] = normals[i * 4];
        result[i * 8 + 5] = normals[i * 4 + 1];
        result[i * 8 + 6] = normals[i * 4 + 2];
        result[i * 8 + 7] = normals[i * 4 + 3];
        i = i + 1;
    }
    result
}

/// The cube, with the names of the GPU objects that hold it.
pub struct Cube {
    pub model_params: ModelParams<i8>,
    vao: u32,
    vbo: u32,
}

impl Cube {
    /// The name of the vertex array object that holds the cube on the GPU;
    /// zero until one is set.
    pub closed spec fn vao(&self) -> u32 {
        self.vao
    }

    /// The name of the buffer object that holds the cube on the GPU; zero
    /// until one is set.
    pub closed spec fn vbo(&self) -> u32 {
        self.vbo
    }

    /// The cube: thirty-six vertices whose buffers are the tables.
    pub fn new() -> (cube: Self)
        ensures
            cube.params().wf(),
            cube.params().vertex_count == CUBE_VERTEX_COUNT,
            cube.params().vertices@ == CUBE_VERTICES@,
            cube.params().normals@ == CUBE_NORMALS@,
            cube.params().vertex_normals@ == CUBE_VERTEX_NORMALS@,
            cube.params().tex_coords@ == CUBE_TEX_COORDS@,
            cube.vao() == 0,
            cube.vbo() == 0,
    {
        Cube {
            model_params: ModelParams {
                vertex_count: CUBE_VERTEX_COUNT as i32,
                vertices: slice_to_vec(CUBE_VERTICES.as_slice()),
                normals: slice_to_vec(CUBE_NORMALS.as_slice()),
                vertex_normals: slice_to_vec(CUBE_VERTEX_NORMALS.as_slice()),
                tex_coords: slice_to_vec(CUBE_TEX_COORDS.as_slice()),
            },
            vao: 0,
            vbo: 0,
        }
    }

    /// Records the names of the vertex array object and the buffer object
    /// that hold the cube on the GPU.
    pub fn set_buffers(&mut self, vao: u32, vbo: u32)
        ensures
            final(self).vao() == vao,
            final(self).vbo() == vbo,
            final(self).params() == old(self).params(),
    {
        self.vao = vao;
        self.vbo = vbo;
    }

    /// The data to upload for the cube: positions intertwined with the smooth
    /// normals.
    pub fn vertex_buffer(&self) -> (buffer: [i8; 288])
        ensures
            forall|i: int|
                0 <= i < 288 ==> buffer[i] == intertwined_arrays(
                    CUBE_VERTICES@,
                    CUBE_VERTEX_NORMALS@,
                    i,
                ),
    {
        intertwine_arrays(CUBE_VERTICES.as_slice(), CUBE_VERTEX_NORMALS.as_slice())
    }
}

impl Model<i8> for Cube {
    closed spec fn params(&self) -> ModelParams<i8> {
        self.model_params
    }

    open spec fn solid_call(&self) -> DrawCall {
        DrawCall::Arrays { vao: self.vao(), vbo: self.vbo(), vertex_count: self.params().vertex_count }
    }

    fn read_model_params(&self) -> (params: &ModelParams<i8>) {
        &self.model_params
    }

    fn get_model_params(&mut self) -> (params: &mut ModelParams<i8>)
        ensures
            final(self).vao() == old(self).vao(),
            final(self).vbo() == old(self).vbo(),
    {
        &mut self.model_params
    }

    fn draw_solid(&self, smooth: bool) -> (call: DrawCall) {
        DrawCall::Arrays { vao: self.vao, vbo: self.vbo, vertex_count: self.model_params.vertex_count }
    }
}

} // verus!
