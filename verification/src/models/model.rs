//! Mesh buffers shared by every model.

use vstd::prelude::*;

verus! {

/// The vertex data of one model, as flat component buffers.
///
/// `vertices`, `normals` (one face normal per vertex) and `vertex_normals`
/// (one smooth normal per vertex) hold four components per vertex.
/// `tex_coords` is empty, or holds two or four components per vertex.
pub struct ModelParams<T> {
    pub vertex_count: i32,
    pub vertices: Vec<T>,
    pub normals: Vec<T>,
    pub vertex_normals: Vec<T>,
    pub tex_coords: Vec<T>,
}

impl<T> ModelParams<T> {
    /// All buffers are parallel: each holds its whole number of components
    /// for each of the `vertex_count` vertices.
    pub open spec fn wf(&self) -> bool {
        &&& self.vertex_count >= 0
        &&& self.vertices@.len() == 4 * self.vertex_count
        &&& self.normals@.len() == 4 * self.vertex_count
        &&& self.vertex_normals@.len() == 4 * self.vertex_count
        &&& (self.tex_coords@.len() == 0 || self.tex_coords@.len() == 2 * self.vertex_count
            || self.tex_coords@.len() == 4 * self.vertex_count)
    }

    /// The parameters of a model without vertex data of its own.
    pub fn empty() -> (params: Self)
        ensures
            params.wf(),
            params.vertex_count == 0,
            params.vertices@.len() == 0,
            params.normals@.len() == 0,
            params.vertex_normals@.len() == 0,
            params.tex_coords@.len() == 0,
    {
        ModelParams {
            vertex_count: 0,
            vertices: Vec::new(),
            normals: Vec::new(),
            vertex_normals: Vec::new(),
            tex_coords: Vec::new(),
        }
    }
}

/// How the GPU fills the polygons it is given.
#[derive(Clone, Copy, Debug, PartialEq, Eq)]
pub enum PolygonMode {
    /// Only the edges are drawn.
    Line,
    /// The polygons are filled.
    Fill,
}

/// What a model asks the GPU to draw. Names of GPU objects are the numbers
/// that the graphics API gave them.
#[derive(Clone, Copy, Debug, PartialEq, Eq)]
pub enum DrawCall {
    /// The model has nothing to draw.
    Nothing,
    /// Triangles from the first `vertex_count` vertices of the bound buffer.
    Arrays { vao: u32, vbo: u32, vertex_count: i32 },
    /// Triangles from `index_count` indices of the bound element buffer, with
    /// the base colour, emissive and normal textures bound to the texture
    /// units 0, 1 and 2.
    Elements {
        vao: u32,
        vbo: u32,
        ebo: u32,
        base_texture: u32,
        emissive_texture: u32,
        normal_texture: u32,
        index_count: i32,
    },
}

/// One step of drawing a model.
#[derive(Clone, Copy, Debug, PartialEq, Eq)]
pub enum DrawStep {
    /// Switch the polygon mode, for front and back faces.
    SetPolygonMode(PolygonMode),
    /// Issue the draw call.
    Draw(DrawCall),
}

/// The steps that draw a model as a wire frame: switch to lines, draw it as
/// when solid, switch back to filled polygons.
pub open spec fn wire_steps(call: DrawCall) -> Seq<DrawStep> {
    seq![
        DrawStep::SetPolygonMode(PolygonMode::Line),
        DrawStep::Draw(call),
        DrawStep::SetPolygonMode(PolygonMode::Fill),
    ]
}

/// Something that can be drawn, solid or as a wire frame.
pub trait Model<T> {
    /// The vertex data of the model.
    spec fn params(&self) -> ModelParams<T>;

    /// The draw call that draws the model solid.
    spec fn solid_call(&self) -> DrawCall;

    /// The vertex data of the model, to read.
    fn read_model_params(&self) -> (params: &ModelParams<T>)
        ensures
            *params == self.params(),
    ;

    /// The vertex data of the model, to change.
    fn get_model_params(&mut self) -> (params: &mut ModelParams<T>)
        ensures
            *params == old(self).params(),
            final(self).params() == *final(params),
    ;

    /// The draw call that draws the model solid. `smooth` asks for smooth
    /// shading where the model can tell the two apart.
    fn draw_solid(&self, smooth: bool) -> (call: DrawCall)
        ensures
            call == self.solid_call(),
    ;

    /// The steps that draw the model as a wire frame; without `smooth` the
    /// shading is flat.
    fn draw_wire(&self, smooth: Option<bool>) -> (steps: Vec<DrawStep>)
        ensures
            steps@ == wire_steps(self.solid_call()),
    {
        let smooth = smooth.unwrap_or(false);
        let mut steps: Vec<DrawStep> = Vec::new();
        steps.push(DrawStep::SetPolygonMode(PolygonMode::Line));
        let call = self.draw_solid(smooth);
        steps.push(DrawStep::Draw(call));
        steps.push(DrawStep::SetPolygonMode(PolygonMode::Fill));
        steps
    }
}

} // verus!
