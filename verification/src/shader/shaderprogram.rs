//! A shader program as the names of its GPU objects, and the order in which
//! its stages are built and taken apart.

use vstd::prelude::*;

verus! {

/// The stages that a shader program can have.
#[derive(Clone, Copy, Debug, PartialEq, Eq)]
pub enum ShaderStage {
    Vertex,
    Geometry,
    Fragment,
}

/// The stages of a program with their source files, in the order in which
/// they are compiled and attached: the vertex shader, the geometry shader if
/// there is one, the fragment shader.
pub open spec fn stages_of(
    vertex_path: Seq<char>,
    geometry_path: Option<Seq<char>>,
    fragment_path: Seq<char>,
) -> Seq<(ShaderStage, Seq<char>)> {
    match geometry_path {
        Some(path) => seq![
            (ShaderStage::Vertex, vertex_path),
            (ShaderStage::Geometry, path),
            (ShaderStage::Fragment, fragment_path),
        ],
        None => seq![(ShaderStage::Vertex, vertex_path), (ShaderStage::Fragment, fragment_path)],
    }
}

/// A linked shader program: the name of the program and of each of its
/// shaders.
#[derive(Debug, PartialEq, Eq)]
pub struct ShaderProgram {
    shader_program: u32,
    vertex_shader: u32,
    geometry_shader: Option<u32>,
    fragment_shader: u32,
}

impl ShaderProgram {
    /// The name of the program.
    pub closed spec fn program(&self) -> u32 {
        self.shader_program
    }

    /// The names of the shaders of the program, in the order in which they
    /// were attached.
    pub closed spec fn attached(&self) -> Seq<u32> {
        match self.geometry_shader {
            Some(geometry) => seq![self.vertex_shader, geometry, self.fragment_shader],
            None => seq![self.vertex_shader, self.fragment_shader],
        }
    }

    /// The stages to compile and attach for a program from the given source
    /// files, in order.
    pub fn stages<'a>(
        vertex_path: &'a str,
        geometry_path: Option<&'a str>,
        fragment_path: &'a str,
    ) -> (stages: Vec<(ShaderStage, &'a str)>)
        ensures
            stages@.map_values(|stage: (ShaderStage, &'a str)| (stage.0, stage.1@)) == stages_of(
                vertex_path@,
                match geometry_path {
                    Some(path) => Some(path@),
                    None => None,
                },
                fragment_path@,
            ),
    {
        let mut stages: Vec<(ShaderStage, &'a str)> = Vec::new();
        stages.push((ShaderStage::Vertex, vertex_path));
        match geometry_path {
            Some(path) => {
                stages.push((ShaderStage::Geometry, path));
            },
            None => {},
        }
        stages.push((ShaderStage::Fragment, fragment_path));
        assert(stages@.map_values(|stage: (ShaderStage, &'a str)| (stage.0, stage.1@)) =~= stages_of(
            vertex_path@,
            match geometry_path {
                Some(path) => Some(path@),
                None => None,
            },
            fragment_path@,
        ));
        stages
    }

    /// The program with the given name, linked from the shaders with the
    /// given names.
    pub fn new(
        shader_program: u32,
        vertex_shader: u32,
        geometry_shader: Option<u32>,
        fragment_shader: u32,
    ) -> (program: Self)
        ensures
            program.program() == shader_program,
            program.attached() == match geometry_shader {
                Some(geometry) => seq![vertex_shader, geometry, fragment_shader],
                None => seq![vertex_shader, fragment_shader],
            },
    {
        ShaderProgram { shader_program, vertex_shader, geometry_shader, fragment_shader }
    }

    /// The name of the program to bind for drawing.
    pub fn use_program(&self) -> (program: u32)
        ensures
            program == self.program(),
    {
        self.shader_program
    }

    /// The shaders to detach from the program and delete, in order, before
    /// the program itself is deleted.
    pub fn shaders(&self) -> (shaders: Vec<u32>)
        ensures
            shaders@ == self.attached(),
    {
        let mut shaders: Vec<u32> = Vec::new();
        shaders.push(self.vertex_shader);
        match self.geometry_shader {
            Some(geometry) => {
                shaders.push(geometry);
            },
            None => {},
        }
        shaders.push(self.fragment_shader);
        shaders
    }
}

/// A buffer of `len` spaces, for the GPU to write a log of that length into.
pub fn create_whitespace_cstring_with_len(len: usize) -> (buffer: Vec<u8>)
    ensures
        buffer@ == Seq::new(len as nat, |i: int| 32u8),
{
    let mut buffer: Vec<u8> = Vec::new();
    let mut i: usize = 0;
    while i < len
        invariant
            i <= len,
            buffer@ == Seq::new(i as nat, |j: int| 32u8),
        decreases len - i,
    {
        buffer.push(32u8);
        i = i + 1;
        assert(buffer@ =~= Seq::new(i as nat, |j: int| 32u8));
    }
    buffer
}

} // verus!
