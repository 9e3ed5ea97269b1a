//! A sphere triangulated along a grid of latitude and longitude steps.
//!
//! The grid, the order of the quads, their split into triangles and the
//! layout of the buffers are decided here. The coordinates of a grid point
//! and the normals are computed by the caller's functions, which are handed
//! the place on the grid as whole numbers.

use vstd::prelude::*;
use crate::utils::vec_utils::Vec4;
use crate::models::model::{DrawCall, Model, ModelParams};

verus! {

/// The number of divisions used for a direction that is not given.
pub const DEFAULT_DIVISIONS: i32 = 12;

/// A corner of a quad on the sphere's grid.
///
/// The quad in row `alpha_index` and column `beta_index` starts at the
/// latitude `alpha_index` steps above the pole at minus ninety degrees and at
/// the longitude `beta_index` steps from zero. The corner lies `alpha_steps`
/// and `beta_steps` further steps on, each zero or one.
#[derive(Clone, Copy, Debug, PartialEq, Eq)]
pub struct GridCorner {
    pub alpha_index: i32,
    pub beta_index: i32,
    pub alpha_steps: i32,
    pub beta_steps: i32,
}

/// One quad of the sphere: its four corners in order around the quad, the
/// smooth normal at each corner, and the one normal of its face.
#[derive(Clone, Copy, Debug, PartialEq)]
pub struct QuadFace<T> {
    pub vertices: [Vec4<T>; 4],
    pub vertex_normals: [Vec4<T>; 4],
    pub normal: Vec4<T>,
}

/// The `k`-th corner of the quad in row `alpha_index`, column `beta_index`:
/// the quad's own grid point, then one step of alpha on, then one step of
/// both on, then one step of beta on.
pub open spec fn quad_corner(alpha_index: i32, beta_index: i32, k: int) -> GridCorner {
    GridCorner {
        alpha_index,
        beta_index,
        alpha_steps: if k == 1 || k == 2 { 1i32 } else { 0i32 },
        beta_steps: if k == 2 || k == 3 { 1i32 } else { 0i32 },
    }
}

/// The corner of a quad that each of its six triangle vertices repeats:
/// the triangles are corners 0, 1, 2 and corners 0, 2, 3.
pub open spec fn triangle_corner(j: int) -> int {
    if j == 0 || j == 3 {
        0
    } else if j == 1 {
        1
    } else if j == 2 || j == 4 {
        2
    } else {
        3
    }
}

/// `face` is what the three functions give for the quad in row `alpha_index`
/// and column `beta_index`: each corner from `point`, the face normal from
/// `face_normal` applied to the four corners, each smooth normal from
/// `vertex_normal`.
pub open spec fn face_generated<T, P, N, F>(
    point: P,
    vertex_normal: N,
    face_normal: F,
    alpha_index: i32,
    beta_index: i32,
    face: QuadFace<T>,
) -> bool where
    P: Fn(GridCorner) -> Vec4<T>,
    N: Fn(GridCorner) -> Vec4<T>,
    F: Fn(&[Vec4<T>; 4]) -> Vec4<T>,
 {
    &&& forall|k: int|
        0 <= k < 4 ==> call_ensures(
            point,
            (quad_corner(alpha_index, beta_index, k),),
            #[trigger] face.vertices[k],
        )
    &&& forall|k: int|
        0 <= k < 4 ==> call_ensures(
            vertex_normal,
            (quad_corner(alpha_index, beta_index, k),),
            #[trigger] face.vertex_normals[k],
        )
    &&& call_ensures(face_normal, (&face.vertices,), face.normal)
}

/// Builds the quad in row `alpha_index`, column `beta_index`: the four
/// corners, then the face normal of those corners, then the four smooth
/// normals.
pub fn generate_sphere_face<T, P, N, F>(
    alpha_index: i32,
    beta_index: i32,
    point: &P,
    vertex_normal: &N,
    face_normal: &F,
) -> (face: QuadFace<T>) where
    T: Copy,
    P: Fn(GridCorner) -> Vec4<T>,
    N: Fn(GridCorner) -> Vec4<T>,
    F: Fn(&[Vec4<T>; 4]) -> Vec4<T>,

    requires
        forall|k: int|
            0 <= k < 4 ==> call_requires(*point, (#[trigger] quad_corner(alpha_index, beta_index, k),)),
        forall|k: int|
            0 <= k < 4 ==> call_requires(
                *vertex_normal,
                (#[trigger] quad_corner(alpha_index, beta_index, k),),
            ),
        forall|corners: [Vec4<T>; 4]| call_requires(*face_normal, (&corners,)),
    ensures
        face_generated(*point, *vertex_normal, *face_normal, alpha_index, beta_index, face),
{
    let c0 = GridCorner { alpha_index, beta_index, alpha_steps: 0, beta_steps: 0 };
    let c1 = GridCorner { alpha_index, beta_index, alpha_steps: 1, beta_steps: 0 };
    let c2 = GridCorner { alpha_index, beta_index, alpha_steps: 1, beta_steps: 1 };
    let c3 = GridCorner { alpha_index, beta_index, alpha_steps: 0, beta_steps: 1 };
    assert(c0 == quad_corner(alpha_index, beta_index, 0));
    assert(c1 == quad_corner(alpha_index, beta_index, 1));
    assert(c2 == quad_corner(alpha_index, beta_index, 2));
    assert(c3 == quad_corner(alpha_index, beta_index, 3));
    let vertices = [point(c0), point(c1), point(c2), point(c3)];
    let normal = face_normal(&vertices);
    let vertex_normals = [vertex_normal(c0), vertex_normal(c1), vertex_normal(c2), vertex_normal(c3)];
    QuadFace { vertices, vertex_normals, normal }
}

/// The six triangle vertices of each face in turn: `pick` chooses what a
/// face holds for each of its corners.
pub open spec fn triangulated<T>(
    faces: Seq<QuadFace<T>>,
    pick: spec_fn(QuadFace<T>, int) -> Vec4<T>,
) -> Seq<Vec4<T>> {
    Seq::new(6 * faces.len(), |i: int| pick(faces[i / 6], triangle_corner(i % 6)))
}

/// The positions that the faces give, six for each face.
pub open spec fn face_positions<T>(faces: Seq<QuadFace<T>>) -> Seq<Vec4<T>> {
    triangulated(faces, |face: QuadFace<T>, k: int| face.vertices[k])
}

/// The smooth normals that the faces give, six for each face.
pub open spec fn face_smooth_normals<T>(faces: Seq<QuadFace<T>>) -> Seq<Vec4<T>> {
    triangulated(faces, |face: QuadFace<T>, k: int| face.vertex_normals[k])
}

/// The face normals that the faces give: each face's normal six times.
pub open spec fn face_flat_normals<T>(faces: Seq<QuadFace<T>>) -> Seq<Vec4<T>> {
    triangulated(faces, |face: QuadFace<T>, k: int| face.normal)
}

/// The components of `vecs` in one sequence, four for each vector.
pub open spec fn flattened<T>(vecs: Seq<Vec4<T>>) -> Seq<T> {
    Seq::new(4 * vecs.len(), |i: int| vecs[i / 4].component(i % 4))
}

/// For each of the first `count` indices the four components of the vertex,
/// then the four components of the normal.
pub open spec fn intertwined<T>(vertices: Seq<Vec4<T>>, normals: Seq<Vec4<T>>, count: int) -> Seq<
    T,
> {
    Seq::new(
        (8 * count) as nat,
        |i: int|
            if i % 8 < 4 {
                vertices[i / 8].component(i % 8)
            } else {
                normals[i / 8].component(i % 8 - 4)
            },
    )
}

/// The number of quads of a grid with `tube_divs` rows and `main_divs`
/// columns; a count that is not positive gives no quads.
pub open spec fn quad_count(tube_divs: i32, main_divs: i32) -> int {
    if tube_divs <= 0 || main_divs <= 0 {
        0
    } else {
        tube_divs * main_divs
    }
}

/// Tells whether the vertices of a grid with `tube_divs` rows and `main_divs`
/// columns can be counted: six for each quad, and no more than the vertex
/// count of a model can hold.
pub fn quads_fit(tube_divs: i32, main_divs: i32) -> (fit: bool)
    ensures
        fit == (6 * quad_count(tube_divs, main_divs) <= i32::MAX),
{
    if tube_divs <= 0 || main_divs <= 0 {
        true
    } else {
        assert(0 < tube_divs * main_divs <= 0x7fff_ffff * 0x7fff_ffff) by (nonlinear_arith)
            requires
                0 < tube_divs <= 0x7fff_ffff,
                0 < main_divs <= 0x7fff_ffff,
        ;
        let quads: i64 = tube_divs as i64 * main_divs as i64;
        quads <= (i32::MAX / 6) as i64
    }
}

/// Flattens `vecs` into their components.
pub fn flatten_vec4<T: Copy>(vecs: &Vec<Vec4<T>>) -> (flat: Vec<T>)
    ensures
        flat@ == flattened(vecs@),
{
    let mut flat: Vec<T> = Vec::new();
    let mut i: usize = 0;
    while i < vecs.len()
        invariant
            i <= vecs.len(),
            flat@ == flattened(vecs@.take(i as int)),
        decreases vecs.len() - i,
    {
        let v = vecs[i];
        flat.push(v.x);
        flat.push(v.y);
        flat.push(v.z);
        flat.push(v.w);
        i = i + 1;
        assert(flat@ =~= flattened(vecs@.take(i as int)));
    }
    assert(vecs@.take(i as int) =~= vecs@);
    flat
}

/// Appends to `result`, for each of the first `vertex_count` vertices, the
/// vertex and then its normal, component by component.
pub fn intertwine_vectors<T: Copy>(
    model_params: &ModelParams<T>,
    vertices: &Vec<Vec4<T>>,
    normals: &Vec<Vec4<T>>,
    result: &mut Vec<T>,
)
    requires
        model_params.vertex_count <= vertices@.len(),
        model_params.vertex_count <= normals@.len(),
    ensures
        final(result)@ == old(result)@ + intertwined(
            vertices@,
            normals@,
            if model_params.vertex_count < 0 {
                0
            } else {
                model_params.vertex_count as int
            },
        ),
{
    let ghost before = result@;
    let mut i: i32 = 0;
    while i < model_params.vertex_count
        invariant
            0 <= i,
            model_params.vertex_count >= 0 ==> i <= model_params.vertex_count,
            model_params.vertex_count < 0 ==> i == 0,
            model_params.vertex_count <= vertices@.len(),
            model_params.vertex_count <= normals@.len(),
            result@ == before + intertwined(vertices@, normals@, i as int),
        decreases model_params.vertex_count - i,
    {
        let v = vertices[i as usize];
        let n = normals[i as usize];
        result.push(v.x);
        result.push(v.y);
        result.push(v.z);
        result.push(v.w);
        result.push(n.x);
        result.push(n.y);
        result.push(n.z);
        result.push(n.w);
        i = i + 1;
        assert(result@ =~= before + intertwined(vertices@, normals@, i as int));
    }
}

/// The number of divisions to use: the one given, or the default.
pub open spec fn divisions_or_default(divisions: Option<i32>) -> i32 {
    match divisions {
        Some(n) => n,
        None => DEFAULT_DIVISIONS,
    }
}

/// The place of the quad in row `alpha_index`, column `beta_index` among the
/// quads of a grid with `main_divs` columns: rows follow one another.
pub open spec fn quad_index(alpha_index: i32, beta_index: i32, main_divs: i32) -> int {
    alpha_index * main_divs + beta_index
}

proof fn lemma_quad_index_below(a: int, b: int, rows: int, columns: int)
    by (nonlinear_arith)
    requires
        0 <= a < rows,
        0 <= b < columns,
    ensures
        0 <= a * columns + b < rows * columns,
        (a + 1) * columns == a * columns + columns,
{
}

/// A triangulated sphere with flat and smooth normals.
pub struct Sphere<T> {
    pub model_params: ModelParams<T>,
    internal_vertices: Vec<Vec4<T>>,
    internal_face_normals: Vec<Vec4<T>>,
    internal_vertex_normals: Vec<Vec4<T>>,
    faces: Ghost<Seq<QuadFace<T>>>,
    vao: u32,
    vbo: u32,
}

impl<T: Copy> Sphere<T> {
    /// The quads that the sphere was built from, row after row.
    pub closed spec fn faces(&self) -> Seq<QuadFace<T>> {
        self.faces@
    }

    /// The position of each triangle vertex.
    pub closed spec fn vertices(&self) -> Seq<Vec4<T>> {
        self.internal_vertices@
    }

    /// The face normal of each triangle vertex.
    pub closed spec fn face_normals(&self) -> Seq<Vec4<T>> {
        self.internal_face_normals@
    }

    /// The smooth normal of each triangle vertex.
    pub closed spec fn vertex_normals(&self) -> Seq<Vec4<T>> {
        self.internal_vertex_normals@
    }

    /// The name of the vertex array object that holds the sphere on the GPU;
    /// zero until one is set.
    pub closed spec fn vao(&self) -> u32 {
        self.vao
    }

    /// The name of the buffer object that holds the sphere on the GPU; zero
    /// until one is set.
    pub closed spec fn vbo(&self) -> u32 {
        self.vbo
    }

    /// The three vertex sequences are the faces split into triangles.
    pub open spec fn triangles_wf(&self) -> bool {
        &&& self.vertices() == face_positions(self.faces())
        &&& self.vertex_normals() == face_smooth_normals(self.faces())
        &&& self.face_normals() == face_flat_normals(self.faces())
    }

    /// The sphere is consistent: its vertex sequences are the faces split
    /// into triangles, and `model_params` holds their components, with the
    /// smooth normals standing in for texture coordinates.
    pub open spec fn wf(&self) -> bool {
        &&& self.triangles_wf()
        &&& self.params().wf()
        &&& self.params().vertex_count == self.vertices().len()
        &&& self.params().vertices@ == flattened(self.vertices())
        &&& self.params().normals@ == flattened(self.face_normals())
        &&& self.params().vertex_normals@ == flattened(self.vertex_normals())
        &&& self.params().tex_coords@ == self.params().vertex_normals@
    }

    /// An empty sphere: no vertices, and no GPU objects.
    pub fn empty() -> (sphere: Self)
        ensures
            sphere.wf(),
            sphere.faces().len() == 0,
            sphere.vao() == 0,
            sphere.vbo() == 0,
    {
        let sphere = Sphere {
            model_params: ModelParams::empty(),
            internal_vertices: Vec::new(),
            internal_face_normals: Vec::new(),
            internal_vertex_normals: Vec::new(),
            faces: Ghost(Seq::empty()),
            vao: 0,
            vbo: 0,
        };
        assert(sphere.vertices() =~= face_positions(sphere.faces()));
        assert(sphere.vertex_normals() =~= face_smooth_normals(sphere.faces()));
        assert(sphere.face_normals() =~= face_flat_normals(sphere.faces()));
        assert(sphere.params().vertices@ =~= flattened(sphere.vertices()));
        assert(sphere.params().normals@ =~= flattened(sphere.face_normals()));
        assert(sphere.params().vertex_normals@ =~= flattened(sphere.vertex_normals()));
        assert(sphere.params().tex_coords@ =~= sphere.params().vertex_normals@);
        sphere
    }

    /// Builds the sphere with `tube_divs` steps of latitude and `main_divs`
    /// steps of longitude, or the default number of either where none is
    /// given. See [`Sphere::build_sphere`] for what the three functions are
    /// asked and where their results go.
    pub fn new<P, N, F>(
        main_divs: Option<i32>,
        tube_divs: Option<i32>,
        point: &P,
        vertex_normal: &N,
        face_normal: &F,
    ) -> (sphere: Self) where
        P: Fn(GridCorner) -> Vec4<T>,
        N: Fn(GridCorner) -> Vec4<T>,
        F: Fn(&[Vec4<T>; 4]) -> Vec4<T>,

        requires
            6 * quad_count(
                divisions_or_default(tube_divs),
                divisions_or_default(main_divs),
            ) <= i32::MAX,
            forall|a: i32, b: i32, k: int|
                0 <= a < divisions_or_default(tube_divs) && 0 <= b < divisions_or_default(
                    main_divs,
                ) && 0 <= k < 4 ==> call_requires(*point, (#[trigger] quad_corner(a, b, k),)),
            forall|a: i32, b: i32, k: int|
                0 <= a < divisions_or_default(tube_divs) && 0 <= b < divisions_or_default(
                    main_divs,
                ) && 0 <= k < 4 ==> call_requires(
                    *vertex_normal,
                    (#[trigger] quad_corner(a, b, k),),
                ),
            forall|corners: [Vec4<T>; 4]| call_requires(*face_normal, (&corners,)),
        ensures
            sphere.wf(),
            sphere.faces().len() == quad_count(
                divisions_or_default(tube_divs),
                divisions_or_default(main_divs),
            ),
            sphere.params().vertex_count == 6 * quad_count(
                divisions_or_default(tube_divs),
                divisions_or_default(main_divs),
            ),
            forall|a: i32, b: i32|
                0 <= a < divisions_or_default(tube_divs) && 0 <= b < divisions_or_default(
                    main_divs,
                ) ==> face_generated(
                    *point,
                    *vertex_normal,
                    *face_normal,
                    a,
                    b,
                    sphere.faces()[#[trigger] quad_index(a, b, divisions_or_default(main_divs))],
                ),
            sphere.vao() == 0,
            sphere.vbo() == 0,
    {
        let main_divs = main_divs.unwrap_or(DEFAULT_DIVISIONS);
        let tube_divs = tube_divs.unwrap_or(DEFAULT_DIVISIONS);
        let mut sphere = Sphere::empty();
        sphere.build_sphere(tube_divs, main_divs, point, vertex_normal, face_normal);
        sphere
    }

    /// Rebuilds the sphere as a grid of `tube_divs` rows of `main_divs` quads
    /// each. A count that is not positive gives an empty sphere.
    ///
    /// For each quad, row after row, `point` is asked for the four corners,
    /// `face_normal` for the normal of those corners, and `vertex_normal` for
    /// the smooth normal at each corner. The quad then gives two triangles,
    /// corners 0, 1, 2 and 0, 2, 3, so six vertices for each quad.
    pub fn build_sphere<P, N, F>(
        &mut self,
        tube_divs: i32,
        main_divs: i32,
        point: &P,
        vertex_normal: &N,
        face_normal: &F,
    ) where
        P: Fn(GridCorner) -> Vec4<T>,
        N: Fn(GridCorner) -> Vec4<T>,
        F: Fn(&[Vec4<T>; 4]) -> Vec4<T>,

        requires
            6 * quad_count(tube_divs, main_divs) <= i32::MAX,
            forall|a: i32, b: i32, k: int|
                0 <= a < tube_divs && 0 <= b < main_divs && 0 <= k < 4 ==> call_requires(
                    *point,
                    (#[trigger] quad_corner(a, b, k),),
                ),
            forall|a: i32, b: i32, k: int|
                0 <= a < tube_divs && 0 <= b < main_divs && 0 <= k < 4 ==> call_requires(
                    *vertex_normal,
                    (#[trigger] quad_corner(a, b, k),),
                ),
            forall|corners: [Vec4<T>; 4]| call_requires(*face_normal, (&corners,)),
        ensures
            final(self).wf(),
            final(self).faces().len() == quad_count(tube_divs, main_divs),
            final(self).params().vertex_count == 6 * quad_count(tube_divs, main_divs),
            forall|a: i32, b: i32|
                0 <= a < tube_divs && 0 <= b < main_divs ==> face_generated(
                    *point,
                    *vertex_normal,
                    *face_normal,
                    a,
                    b,
                    final(self).faces()[#[trigger] quad_index(a, b, main_divs)],
                ),
            final(self).vao() == old(self).vao(),
            final(self).vbo() == old(self).vbo(),
    {
        self.internal_vertices.clear();
        self.internal_face_normals.clear();
        self.internal_vertex_normals.clear();
        proof {
            self.faces@ = Seq::empty();
            assert(self.vertices() =~= face_positions(self.faces()));
            assert(self.vertex_normals() =~= face_smooth_normals(self.faces()));
            assert(self.face_normals() =~= face_flat_normals(self.faces()));
        }
        let ghost columns: int = if main_divs > 0 {
            main_divs as int
        } else {
            0
        };

        let mut alpha_it: i32 = 0;
        while alpha_it < tube_divs
            invariant
                0 <= alpha_it,
                tube_divs > 0 ==> alpha_it <= tube_divs,
                tube_divs <= 0 ==> alpha_it == 0,
                columns == if main_divs > 0 {
                    main_divs as int
                } else {
                    0
                },
                6 * quad_count(tube_divs, main_divs) <= i32::MAX,
                self.triangles_wf(),
                self.faces().len() == alpha_it * columns,
                self.vao() == old(self).vao(),
                self.vbo() == old(self).vbo(),
                forall|a: i32, b: i32, k: int|
                    0 <= a < tube_divs && 0 <= b < main_divs && 0 <= k < 4 ==> call_requires(
                        *point,
                        (#[trigger] quad_corner(a, b, k),),
                    ),
                forall|a: i32, b: i32, k: int|
                    0 <= a < tube_divs && 0 <= b < main_divs && 0 <= k < 4 ==> call_requires(
                        *vertex_normal,
                        (#[trigger] quad_corner(a, b, k),),
                    ),
                forall|corners: [Vec4<T>; 4]| call_requires(*face_normal, (&corners,)),
                forall|a: i32, b: i32|
                    0 <= a < alpha_it && 0 <= b < main_divs ==> face_generated(
                        *point,
                        *vertex_normal,
                        *face_normal,
                        a,
                        b,
                        self.faces()[#[trigger] quad_index(a, b, main_divs)],
                    ),
            decreases tube_divs - alpha_it,
        {
            let mut beta_it: i32 = 0;
            while beta_it < main_divs
                invariant
                    0 <= alpha_it < tube_divs,
                    0 <= beta_it,
                    main_divs > 0 ==> beta_it <= main_divs,
                    main_divs <= 0 ==> beta_it == 0,
                    columns == if main_divs > 0 {
                        main_divs as int
                    } else {
                        0
                    },
                    6 * quad_count(tube_divs, main_divs) <= i32::MAX,
                    self.triangles_wf(),
                    self.faces().len() == alpha_it * columns + beta_it,
                    self.vao() == old(self).vao(),
                    self.vbo() == old(self).vbo(),
                    forall|a: i32, b: i32, k: int|
                        0 <= a < tube_divs && 0 <= b < main_divs && 0 <= k < 4 ==> call_requires(
                            *point,
                            (#[trigger] quad_corner(a, b, k),),
                        ),
                    forall|a: i32, b: i32, k: int|
                        0 <= a < tube_divs && 0 <= b < main_divs && 0 <= k < 4 ==> call_requires(
                            *vertex_normal,
                            (#[trigger] quad_corner(a, b, k),),
                        ),
                    forall|corners: [Vec4<T>; 4]| call_requires(*face_normal, (&corners,)),
                    forall|a: i32, b: i32|
                        0 <= b < main_divs && (0 <= a < alpha_it || (a == alpha_it && b < beta_it))
                            ==> face_generated(
                            *point,
                            *vertex_normal,
                            *face_normal,
                            a,
                            b,
                            self.faces()[#[trigger] quad_index(a, b, main_divs)],
                        ),
                decreases main_divs - beta_it,
            {
                let face = generate_sphere_face(
                    alpha_it,
                    beta_it,
                    point,
                    vertex_normal,
                    face_normal,
                );
                let ghost before = self.faces();
                self.push_face(face);
                proof {
                    assert forall|a: i32, b: i32|
                        0 <= b < main_divs && (0 <= a < alpha_it || (a == alpha_it && b
                            <= beta_it)) implies face_generated(
                        *point,
                        *vertex_normal,
                        *face_normal,
                        a,
                        b,
                        self.faces()[#[trigger] quad_index(a, b, main_divs)],
                    ) by {
                        if a == alpha_it && b == beta_it {
                            assert(quad_index(a, b, main_divs) == before.len());
                        } else if a < alpha_it {
                            lemma_quad_index_below(
                                a as int,
                                b as int,
                                alpha_it as int,
                                main_divs as int,
                            );
                            assert(self.faces()[quad_index(a, b, main_divs)] == before[quad_index(
                                a,
                                b,
                                main_divs,
                            )]);
                        } else {
                            assert(self.faces()[quad_index(a, b, main_divs)] == before[quad_index(
                                a,
                                b,
                                main_divs,
                            )]);
                        }
                    }
                }
                beta_it = beta_it + 1;
            }
            proof {
                if main_divs > 0 {
                    lemma_quad_index_below(alpha_it as int, 0, tube_divs as int, main_divs as int);
                }
            }
            alpha_it = alpha_it + 1;
        }
        proof {
            if tube_divs > 0 && main_divs > 0 {
                assert(self.faces().len() == quad_count(tube_divs, main_divs));
            } else {
                assert(alpha_it * columns == 0) by (nonlinear_arith)
                    requires
                        alpha_it == 0 || columns == 0,
                ;
            }
        }

        self.model_params.vertices = flatten_vec4(&self.internal_vertices);
        self.model_params.normals = flatten_vec4(&self.internal_face_normals);
        self.model_params.vertex_normals = flatten_vec4(&self.internal_vertex_normals);
        self.model_params.tex_coords = flatten_vec4(&self.internal_vertex_normals);
        self.model_params.vertex_count = self.internal_vertices.len() as i32;
    }

    /// Records the names of the vertex array object and the buffer object
    /// that hold the sphere on the GPU.
    pub fn set_buffers(&mut self, vao: u32, vbo: u32)
        ensures
            final(self).vao() == vao,
            final(self).vbo() == vbo,
            final(self).params() == old(self).params(),
            final(self).faces() == old(self).faces(),
            final(self).vertices() == old(self).vertices(),
            final(self).face_normals() == old(self).face_normals(),
            final(self).vertex_normals() == old(self).vertex_normals(),
    {
        self.vao = vao;
        self.vbo = vbo;
    }

    /// The position of each triangle vertex.
    pub fn internal_vertices(&self) -> (vertices: &Vec<Vec4<T>>)
        ensures
            vertices@ == self.vertices(),
    {
        &self.internal_vertices
    }

    /// The face normal of each triangle vertex.
    pub fn internal_face_normals(&self) -> (normals: &Vec<Vec4<T>>)
        ensures
            normals@ == self.face_normals(),
    {
        &self.internal_face_normals
    }

    /// The smooth normal of each triangle vertex.
    pub fn internal_vertex_normals(&self) -> (normals: &Vec<Vec4<T>>)
        ensures
            normals@ == self.vertex_normals(),
    {
        &self.internal_vertex_normals
    }

    /// The data to upload for the sphere: for each triangle vertex its
    /// position, then its smooth normal, component by component.
    pub fn vertex_buffer(&self) -> (buffer: Vec<T>)
        requires
            self.params().vertex_count <= self.vertices().len(),
            self.params().vertex_count <= self.vertex_normals().len(),
        ensures
            buffer@ == intertwined(
                self.vertices(),
                self.vertex_normals(),
                if self.params().vertex_count < 0 {
                    0
                } else {
                    self.params().vertex_count as int
                },
            ),
    {
        let mut buffer: Vec<T> = Vec::new();
        intertwine_vectors(
            &self.model_params,
            &self.internal_vertices,
            &self.internal_vertex_normals,
            &mut buffer,
        );
        buffer
    }

    /// Appends the two triangles of `face`, corners 0, 1, 2 and 0, 2, 3, with
    /// the smooth normals of those corners and six copies of the face normal.
    fn push_face(&mut self, face: QuadFace<T>)
        requires
            old(self).triangles_wf(),
        ensures
            final(self).triangles_wf(),
            final(self).faces() == old(self).faces().push(face),
            final(self).params() == old(self).params(),
            final(self).vao() == old(self).vao(),
            final(self).vbo() == old(self).vbo(),
    {
        self.internal_vertices.push(face.vertices[0]);
        self.internal_vertices.push(face.vertices[1]);
        self.internal_vertices.push(face.vertices[2]);

        self.internal_vertices.push(face.vertices[0]);
        self.internal_vertices.push(face.vertices[2]);
        self.internal_vertices.push(face.vertices[3]);

        self.internal_vertex_normals.push(face.vertex_normals[0]);
        self.internal_vertex_normals.push(face.vertex_normals[1]);
        self.internal_vertex_normals.push(face.vertex_normals[2]);

        self.internal_vertex_normals.push(face.vertex_normals[0]);
        self.internal_vertex_normals.push(face.vertex_normals[2]);
        self.internal_vertex_normals.push(face.vertex_normals[3]);

        let mut i: usize = 0;
        while i < 6
            invariant
                i <= 6,
                self.internal_face_normals@ == old(self).internal_face_normals@ + Seq::new(
                    i as nat,
                    |j: int| face.normal,
                ),
                self.internal_vertices@ == old(self).internal_vertices@ + seq![
                    face.vertices[0],
                    face.vertices[1],
                    face.vertices[2],
                    face.vertices[0],
                    face.vertices[2],
                    face.vertices[3],
                ],
                self.internal_vertex_normals@ == old(self).internal_vertex_normals@ + seq![
                    face.vertex_normals[0],
                    face.vertex_normals[1],
                    face.vertex_normals[2],
                    face.vertex_normals[0],
                    face.vertex_normals[2],
                    face.vertex_normals[3],
                ],
                self.faces == old(self).faces,
                self.model_params == old(self).model_params,
                self.vao == old(self).vao,
                self.vbo == old(self).vbo,
            decreases 6 - i,
        {
            self.internal_face_normals.push(face.normal);
            i = i + 1;
        }
        proof {
            self.faces@ = self.faces@.push(face);
            assert(self.vertices() =~= face_positions(self.faces()));
            assert(self.vertex_normals() =~= face_smooth_normals(self.faces()));
            assert(self.face_normals() =~= face_flat_normals(self.faces()));
        }
    }
}

impl<T: Copy> Model<T> for Sphere<T> {
    closed spec fn params(&self) -> ModelParams<T> {
        self.model_params
    }

    open spec fn solid_call(&self) -> DrawCall {
        DrawCall::Arrays { vao: self.vao(), vbo: self.vbo(), vertex_count: self.params().vertex_count }
    }

    fn read_model_params(&self) -> (params: &ModelParams<T>) {
        &self.model_params
    }

    fn get_model_params(&mut self) -> (params: &mut ModelParams<T>)
        ensures
            final(self).vao() == old(self).vao(),
            final(self).vbo() == old(self).vbo(),
            final(self).faces() == old(self).faces(),
            final(self).vertices() == old(self).vertices(),
            final(self).face_normals() == old(self).face_normals(),
            final(self).vertex_normals() == old(self).vertex_normals(),
    {
        &mut self.model_params
    }

    fn draw_solid(&self, smooth: bool) -> (call: DrawCall) {
        DrawCall::Arrays { vao: self.vao, vbo: self.vbo, vertex_count: self.model_params.vertex_count }
    }
}

} // verus!
