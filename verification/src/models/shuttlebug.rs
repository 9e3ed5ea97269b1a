//! A mesh imported from an asset file: the vertex data as it is laid out for
//! the GPU, and the primitives once they are uploaded.

use vstd::prelude::*;
use vstd::slice::slice_subrange;
use crate::models::model::{DrawCall, Model, ModelParams};

verus! {

/// The number of components that one vertex takes in the uploaded buffer:
/// four of the position, four of the normal, two of the texture coordinate.
pub const VERTEX_STRIDE: usize = 10;

/// One primitive of the mesh on the GPU: the names of its vertex array,
/// vertex buffer and element buffer, of its three textures (zero where the
/// material has none), and the number of its indices.
#[derive(Clone, Copy, Debug, PartialEq, Eq)]
pub struct GpuPrimitive {
    pub vao: u32,
    pub vbo: u32,
    pub ebo: u32,
    pub base_texture: u32,
    pub emissive_texture: u32,
    pub normal_texture: u32,
    pub index_count: i32,
}

/// Where the bytes of an image of the asset are found.
#[derive(Clone, Copy, Debug, PartialEq, Eq)]
pub enum ImageSource {
    /// `length` bytes from `offset` on in the buffer with index `buffer`.
    View { buffer: usize, offset: usize, length: usize },
    /// A file of its own, named by a URI.
    Uri,
}

impl ImageSource {
    /// The image is embedded in one of `buffers`, and lies within it.
    pub open spec fn embedded_in(self, buffers: Seq<&[u8]>) -> bool {
        match self {
            ImageSource::View { buffer, offset, length } => {
                &&& buffer < buffers.len()
                &&& offset + length <= buffers[buffer as int]@.len()
            },
            ImageSource::Uri => false,
        }
    }

    /// The bytes of an embedded image.
    pub open spec fn bytes_in(self, buffers: Seq<&[u8]>) -> Seq<u8> {
        match self {
            ImageSource::View { buffer, offset, length } => buffers[buffer as int]@.subrange(
                offset as int,
                offset + length,
            ),
            ImageSource::Uri => Seq::empty(),
        }
    }

    /// Tells whether the image is embedded in one of `buffers` and lies
    /// within it.
    pub fn is_embedded_in(&self, buffers: &Vec<&[u8]>) -> (embedded: bool)
        ensures
            embedded == self.embedded_in(buffers@),
    {
        match self {
            ImageSource::View { buffer, offset, length } => {
                if *buffer < buffers.len() {
                    let available = buffers[*buffer].len();
                    *offset <= available && *length <= available - *offset
                } else {
                    false
                }
            },
            ImageSource::Uri => false,
        }
    }

    /// The bytes of the image, borrowed from its buffer, if it is embedded in
    /// one of `buffers` and lies within it.
    pub fn image_bytes<'a>(&self, buffers: &Vec<&'a [u8]>) -> (bytes: Option<&'a [u8]>)
        ensures
            bytes is Some <==> self.embedded_in(buffers@),
            bytes matches Some(found) ==> found@ == self.bytes_in(buffers@),
    {
        match self {
            ImageSource::View { buffer, offset, length } => {
                if *buffer >= buffers.len() {
                    return None;
                }
                let bytes = buffers[*buffer];
                let available = bytes.len();
                if *offset > available || *length > available - *offset {
                    return None;
                }
                Some(slice_subrange(bytes, *offset, *offset + *length))
            },
            ImageSource::Uri => None,
        }
    }
}

/// The number of whole vertices in `position_count` position components.
pub open spec fn vertex_count_of(position_count: int) -> int {
    position_count / 3
}

/// The component at index `i` of the buffer that is uploaded for the mesh.
/// Each vertex takes ten components: the three of its position and `one`, the
/// three of its normal and `one`, and the two of its texture coordinate.
pub open spec fn vertex_component<T>(
    positions: Seq<T>,
    normals: Seq<T>,
    tex_coords: Seq<[T; 2]>,
    one: T,
    i: int,
) -> T {
    let vertex = i / 10;
    let part = i % 10;
    if part < 3 {
        positions[3 * vertex + part]
    } else if part == 3 {
        one
    } else if part < 7 {
        normals[3 * vertex + part - 4]
    } else if part == 7 {
        one
    } else {
        tex_coords[vertex][part - 8]
    }
}

/// The buffer that is uploaded for a mesh with the given attributes.
pub open spec fn vertex_data_of<T>(
    positions: Seq<T>,
    normals: Seq<T>,
    tex_coords: Seq<[T; 2]>,
    one: T,
) -> Seq<T> {
    Seq::new(
        (10 * vertex_count_of(positions.len() as int)) as nat,
        |i: int| vertex_component(positions, normals, tex_coords, one, i),
    )
}

/// Lays the attributes of a mesh out for the GPU, vertex by vertex: position,
/// `one`, normal, `one`, texture coordinate. Position components beyond the
/// last whole vertex are left out.
pub fn interleave_vertex_data<T: Copy>(
    positions: &Vec<T>,
    normals: &Vec<T>,
    tex_coords: &Vec<[T; 2]>,
    one: T,
) -> (vertex_data: Vec<T>)
    requires
        normals@.len() >= 3 * vertex_count_of(positions@.len() as int),
        tex_coords@.len() >= vertex_count_of(positions@.len() as int),
    ensures
        vertex_data@ == vertex_data_of(positions@, normals@, tex_coords@, one),
{
    let count = positions.len() / 3;
    let mut vertex_data: Vec<T> = Vec::new();
    let mut i: usize = 0;
    while i < count
        invariant
            i <= count,
            count == vertex_count_of(positions@.len() as int),
            3 * count <= positions@.len() <= usize::MAX,
            normals@.len() >= 3 * count,
            tex_coords@.len() >= count,
            vertex_data@.len() == 10 * i,
            forall|j: int|
                0 <= j < 10 * i ==> vertex_data@[j] == vertex_component(
                    positions@,
                    normals@,
                    tex_coords@,
                    one,
                    j,
                ),
        decreases count - i,
    {
        let uv = tex_coords[i];
        vertex_data.push(positions[i * 3]);
        vertex_data.push(positions[i * 3 + 1]);
        vertex_data.push(positions[i * 3 + 2]);
        vertex_data.push(one);
        vertex_data.push(normals[i * 3]);
        vertex_data.push(normals[i * 3 + 1]);
        vertex_data.push(normals[i * 3 + 2]);
        vertex_data.push(one);
        vertex_data.push(uv[0]);
        vertex_data.push(uv[1]);
        i = i + 1;
    }
    assert(vertex_data@ =~= vertex_data_of(positions@, normals@, tex_coords@, one));
    vertex_data
}

/// The texture coordinates of a mesh that brings none: `zero` twice for each
/// whole vertex in `position_count` position components.
pub fn default_tex_coords<T: Copy>(position_count: usize, zero: T) -> (tex_coords: Vec<[T; 2]>)
    ensures
        tex_coords@.len() == vertex_count_of(position_count as int),
        forall|i: int|
            0 <= i < tex_coords@.len() ==> (#[trigger] tex_coords@[i])@ == seq![zero, zero],
{
    let count = position_count / 3;
    let mut tex_coords: Vec<[T; 2]> = Vec::new();
    let mut i: usize = 0;
    while i < count
        invariant
            i <= count,
            tex_coords@.len() == i,
            forall|j: int| 0 <= j < i ==> (#[trigger] tex_coords@[j])@ == seq![zero, zero],
        decreases count - i,
    {
        let pair = [zero, zero];
        assert(pair@ =~= seq![zero, zero]);
        tex_coords.push(pair);
        i = i + 1;
    }
    tex_coords
}

/// An imported mesh: its primitives as they were uploaded.
pub struct Shuttlebug<T> {
    pub model_params: ModelParams<T>,
    primitives: Vec<GpuPrimitive>,
}

impl<T> Shuttlebug<T> {
    /// The primitives of the mesh, in the order of the asset.
    pub closed spec fn primitives(&self) -> Seq<GpuPrimitive> {
        self.primitives@
    }

    /// The mesh with the given uploaded primitives. Its vertex data lives on
    /// the GPU only, so its parameters are empty.
    pub fn new(primitives: Vec<GpuPrimitive>) -> (mesh: Self)
        ensures
            mesh.primitives() == primitives@,
            mesh.params().wf(),
            mesh.params().vertex_count == 0,
            mesh.params().vertices@.len() == 0,
            mesh.params().normals@.len() == 0,
            mesh.params().vertex_normals@.len() == 0,
            mesh.params().tex_coords@.len() == 0,
    {
        Shuttlebug { model_params: ModelParams::empty(), primitives }
    }

    /// The primitives of the mesh, in the order of the asset.
    pub fn gpu_primitives(&self) -> (primitives: &Vec<GpuPrimitive>)
        ensures
            primitives@ == self.primitives(),
    {
        &self.primitives
    }
}

/// The draw call for a primitive: its indexed triangles with its three
/// textures.
pub open spec fn primitive_call(primitive: GpuPrimitive) -> DrawCall {
    DrawCall::Elements {
        vao: primitive.vao,
        vbo: primitive.vbo,
        ebo: primitive.ebo,
        base_texture: primitive.base_texture,
        emissive_texture: primitive.emissive_texture,
        normal_texture: primitive.normal_texture,
        index_count: primitive.index_count,
    }
}

impl<T> Model<T> for Shuttlebug<T> {
    closed spec fn params(&self) -> ModelParams<T> {
        self.model_params
    }

    /// Only the first primitive is drawn; a mesh without primitives draws
    /// nothing.
    open spec fn solid_call(&self) -> DrawCall {
        if self.primitives().len() == 0 {
            DrawCall::Nothing
        } else {
            primitive_call(self.primitives()[0])
        }
    }

    fn read_model_params(&self) -> (params: &ModelParams<T>) {
        &self.model_params
    }

    fn get_model_params(&mut self) -> (params: &mut ModelParams<T>)
        ensures
            final(self).primitives() == old(self).primitives(),
    {
        &mut self.model_params
    }

    fn draw_solid(&self, smooth: bool) -> (call: DrawCall) {
        if self.primitives.len() == 0 {
            DrawCall::Nothing
        } else {
            let primitive = self.primitives[0];
            DrawCall::Elements {
                vao: primitive.vao,
                vbo: primitive.vbo,
                ebo: primitive.ebo,
                base_texture: primitive.base_texture,
                emissive_texture: primitive.emissive_texture,
                normal_texture: primitive.normal_texture,
                index_count: primitive.index_count,
            }
        }
    }
}

} // verus!
