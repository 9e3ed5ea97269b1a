//! The renderer's state apart from the GPU: the models by name, the camera's
//! zoom and turning speed, the satellites, and the plan of each frame.
//!
//! Lengths are kept in tenths of a unit and angles in hundredths of a radian,
//! which holds every value that the controls can reach exactly.

use vstd::prelude::*;
use vstd::hash_map::StringHashMap;
use crate::utils::vec_utils::{cross, Vec3};
use crate::models::model::{DrawCall, DrawStep, Model, wire_steps};
use crate::models::sphere::Sphere;
use crate::models::cube::Cube;
use crate::models::shuttlebug::Shuttlebug;

verus! {

/// The zoom that the renderer starts with, in tenths of a unit.
pub const INITIAL_ZOOM: i32 = 50;

/// The number of satellites.
pub const SATELLITE_COUNT: usize = 10;

/// The radius of the sphere that the satellites lie on, in tenths of a unit.
pub const SATELLITE_RADIUS: i32 = 30;

/// The angle by which the model turns in each frame, in hundredths of a
/// radian.
pub const MODEL_ROTATION_STEP: i32 = 1;

/// The width of the viewport that each frame sets, in pixels.
pub const VIEWPORT_WIDTH: i32 = 1900;

/// The height of the viewport that each frame sets, in pixels.
pub const VIEWPORT_HEIGHT: i32 = 1100;

/// A model of the scene: one of the three kinds that can be drawn.
pub enum Drawable<T> {
    Sphere(Sphere<T>),
    Cube(Cube),
    Shuttlebug(Shuttlebug<T>),
}

impl<T: Copy> Drawable<T> {
    /// The draw call that draws the model solid.
    pub open spec fn solid_call(&self) -> DrawCall {
        match self {
            Drawable::Sphere(sphere) => sphere.solid_call(),
            Drawable::Cube(cube) => cube.solid_call(),
            Drawable::Shuttlebug(mesh) => mesh.solid_call(),
        }
    }

    /// The draw call that draws the model solid.
    pub fn draw_solid(&self, smooth: bool) -> (call: DrawCall)
        ensures
            call == self.solid_call(),
    {
        match self {
            Drawable::Sphere(sphere) => sphere.draw_solid(smooth),
            Drawable::Cube(cube) => cube.draw_solid(smooth),
            Drawable::Shuttlebug(mesh) => mesh.draw_solid(smooth),
        }
    }

    /// The steps that draw the model as a wire frame.
    pub fn draw_wire(&self, smooth: Option<bool>) -> (steps: Vec<DrawStep>)
        ensures
            steps@ == wire_steps(self.solid_call()),
    {
        match self {
            Drawable::Sphere(sphere) => sphere.draw_wire(smooth),
            Drawable::Cube(cube) => cube.draw_wire(smooth),
            Drawable::Shuttlebug(mesh) => mesh.draw_wire(smooth),
        }
    }
}

/// A camera given by where it stands, what it looks at and which way is up.
/// `eye` and `center` are in tenths of a unit; `up` is a direction.
#[derive(Clone, Copy, Debug, PartialEq)]
pub struct LookAt {
    pub eye: Vec3<i64>,
    pub center: Vec3<i64>,
    pub up: Vec3<i64>,
}

impl LookAt {
    /// The camera gives no view: it stands where it looks, or looks straight
    /// along `up`. Then the cross product of its line of sight and `up` is
    /// the zero vector, and no view matrix can be built from it.
    pub open spec fn is_degenerate(self) -> bool {
        let sight = Vec3 {
            x: self.center.x - self.eye.x,
            y: self.center.y - self.eye.y,
            z: self.center.z - self.eye.z,
        };
        let up = Vec3 { x: self.up.x as int, y: self.up.y as int, z: self.up.z as int };
        cross(sight, up) == (Vec3 { x: 0int, y: 0int, z: 0int })
    }
}

/// The camera at the distance `zoom` from the origin on the negative z axis,
/// looking at the origin, with the y axis up.
pub open spec fn camera_at(zoom: i32) -> LookAt {
    LookAt {
        eye: Vec3 { x: 0i64, y: 0i64, z: (-zoom) as i64 },
        center: Vec3 { x: 0i64, y: 0i64, z: 0i64 },
        up: Vec3 { x: 0i64, y: 1i64, z: 0i64 },
    }
}

/// The camera at a zoom gives a view unless the zoom is zero.
pub proof fn lemma_camera_degenerate(zoom: i32)
    ensures
        camera_at(zoom).is_degenerate() <==> zoom == 0,
{
}

/// The perspective that is fixed when the renderer starts: the field of view
/// in degrees, the aspect ratio as width to height, and the near and far
/// planes in whole units.
#[derive(Clone, Copy, Debug, PartialEq, Eq)]
pub struct Projection {
    pub fov_degrees: i32,
    pub aspect_width: i32,
    pub aspect_height: i32,
    pub near: i32,
    pub far: i32,
}

/// The part of the window that is drawn to, in pixels from its lower left
/// corner.
#[derive(Clone, Copy, Debug, PartialEq, Eq)]
pub struct Viewport {
    pub x: i32,
    pub y: i32,
    pub width: i32,
    pub height: i32,
}

/// A turn by `hundredths` of a radian about `axis`.
#[derive(Clone, Copy, Debug, PartialEq)]
pub struct Rotation {
    pub hundredths: i32,
    pub axis: Vec3<i32>,
}

/// The shader programs of the renderer.
#[derive(Clone, Copy, Debug, PartialEq, Eq)]
pub enum Shader {
    /// The plain program that the imported mesh is drawn with.
    Simple,
    /// The textured Lambert program that the satellites are drawn with.
    Lambert,
}

/// One step of a frame.
#[derive(Clone, Copy, Debug, PartialEq)]
pub enum FrameStep {
    /// Switch depth testing on and face culling off, take clockwise faces as
    /// front, set the viewport and clear colour and depth to opaque black.
    Prepare(Viewport),
    /// Turn the model matrix.
    RotateModel(Rotation),
    /// Turn the view matrix.
    RotateView(Rotation),
    /// Draw the imported mesh in white with the shader, under the projection,
    /// view and model matrices.
    DrawImported { shader: Shader, call: DrawCall },
    /// Draw the sphere in white with the shader and the texture, moved to the
    /// position of the satellite with the given index, under the projection
    /// and view matrices.
    DrawSatellite { shader: Shader, index: usize, texture: u32, call: DrawCall },
}

/// The steps of a frame: prepare, turn the model by its fixed step about the
/// diagonal of x and y, turn the view by `speed` about the y axis, draw the
/// imported mesh, then draw the sphere once for each satellite.
pub open spec fn frame_steps(
    speed: i32,
    imported: DrawCall,
    sphere: DrawCall,
    texture: u32,
    satellites: nat,
) -> Seq<FrameStep> {
    seq![
        FrameStep::Prepare(Viewport { x: 0, y: 0, width: VIEWPORT_WIDTH, height: VIEWPORT_HEIGHT }),
        FrameStep::RotateModel(
            Rotation { hundredths: MODEL_ROTATION_STEP, axis: Vec3 { x: 1i32, y: 1i32, z: 0i32 } },
        ),
        FrameStep::RotateView(Rotation { hundredths: speed, axis: Vec3 { x: 0i32, y: 1i32, z: 0i32 } }),
        FrameStep::DrawImported { shader: Shader::Simple, call: imported },
    ] + Seq::new(
        satellites,
        |i: int|
            FrameStep::DrawSatellite {
                shader: Shader::Lambert,
                index: i as usize,
                texture,
                call: sphere,
            },
    )
}

/// The sum of `zoom` and `delta`, held within the range of the zoom.
pub open spec fn zoom_after(zoom: i32, delta: i32) -> i32 {
    if zoom + delta > i32::MAX {
        i32::MAX
    } else if zoom + delta < i32::MIN {
        i32::MIN
    } else {
        (zoom + delta) as i32
    }
}

/// The state of the renderer.
#[verifier::reject_recursive_types(T)]
pub struct Renderer<T> {
    models: StringHashMap<Drawable<T>>,
    pub zoom: i32,
    dirt_texture: u32,
    random_pos_vector: Vec<Vec3<T>>,
    pub speed: i32,
}

impl<T: Copy> Renderer<T> {
    /// The models of the scene by name.
    pub closed spec fn models(&self) -> Map<Seq<char>, Drawable<T>> {
        self.models@
    }

    /// The distance of the camera from the origin, in tenths of a unit.
    pub closed spec fn zoom(&self) -> i32 {
        self.zoom
    }

    /// The angle by which the view turns in each frame, in hundredths of a
    /// radian.
    pub closed spec fn speed(&self) -> i32 {
        self.speed
    }

    /// The name of the texture that all satellites share.
    pub closed spec fn dirt_texture(&self) -> u32 {
        self.dirt_texture
    }

    /// The positions of the satellites.
    pub closed spec fn satellites(&self) -> Seq<Vec3<T>> {
        self.random_pos_vector@
    }

    /// The scene holds what a frame draws: the imported mesh, and the sphere
    /// if there is a satellite to draw.
    pub open spec fn can_draw(&self) -> bool {
        &&& self.models().contains_key("ant"@)
        &&& self.satellites().len() > 0 ==> self.models().contains_key("sphere"@)
    }

    /// The renderer as it starts: the three models under their names, the
    /// camera at its initial zoom and at rest, and a first set of satellites
    /// from `spherical_rand`.
    pub fn new<F>(
        cube: Cube,
        sphere: Sphere<T>,
        shuttlebug: Shuttlebug<T>,
        dirt_texture: u32,
        spherical_rand: &F,
    ) -> (renderer: Self) where F: Fn(i32) -> Vec3<T>
        requires
            call_requires(*spherical_rand, (SATELLITE_RADIUS,)),
        ensures
            renderer.zoom() == INITIAL_ZOOM,
            renderer.speed() == 0,
            renderer.dirt_texture() == dirt_texture,
            renderer.models() == Map::<Seq<char>, Drawable<T>>::empty().insert(
                "cube"@,
                Drawable::Cube(cube),
            ).insert("sphere"@, Drawable::Sphere(sphere)).insert(
                "ant"@,
                Drawable::Shuttlebug(shuttlebug),
            ),
            renderer.models()["cube"@] == Drawable::<T>::Cube(cube),
            renderer.models()["sphere"@] == Drawable::Sphere(sphere),
            renderer.models()["ant"@] == Drawable::Shuttlebug(shuttlebug),
            renderer.can_draw(),
            renderer.satellites().len() == SATELLITE_COUNT,
            forall|i: int|
                0 <= i < SATELLITE_COUNT ==> call_ensures(
                    *spherical_rand,
                    (SATELLITE_RADIUS,),
                    #[trigger] renderer.satellites()[i],
                ),
    {
        proof {
            reveal_strlit("cube");
            reveal_strlit("sphere");
            reveal_strlit("ant");
            assert("cube"@.len() == 4 && "sphere"@.len() == 6 && "ant"@.len() == 3);
        }
        let mut renderer = Renderer {
            models: StringHashMap::new(),
            zoom: INITIAL_ZOOM,
            dirt_texture,
            random_pos_vector: Vec::new(),
            speed: 0,
        };
        renderer.generateRandomPos(spherical_rand);
        renderer.addModel("cube", Drawable::Cube(cube));
        renderer.addModel("sphere", Drawable::Sphere(sphere));
        renderer.addModel("ant", Drawable::Shuttlebug(shuttlebug));
        renderer
    }

    /// The perspective of the renderer, which never changes.
    pub fn projection(&self) -> (projection: Projection)
        ensures
            projection == (Projection {
                fov_degrees: 100,
                aspect_width: VIEWPORT_WIDTH,
                aspect_height: VIEWPORT_HEIGHT,
                near: 1,
                far: 50,
            }),
    {
        Projection {
            fov_degrees: 100,
            aspect_width: VIEWPORT_WIDTH,
            aspect_height: VIEWPORT_HEIGHT,
            near: 1,
            far: 50,
        }
    }

    /// The camera for the current zoom. The view is rebuilt from it, so
    /// whatever the view had turned by is gone. At zoom zero the camera is
    /// degenerate, and only then.
    #[allow(non_snake_case)]
    pub fn changeCameraZoom(&self) -> (camera: LookAt)
        ensures
            camera == camera_at(self.zoom()),
            camera.is_degenerate() <==> self.zoom() == 0,
    {
        let zoom = self.zoom as i64;
        LookAt {
            eye: Vec3 { x: 0, y: 0, z: -zoom },
            center: Vec3 { x: 0, y: 0, z: 0 },
            up: Vec3 { x: 0, y: 1, z: 0 },
        }
    }

    /// Adds `delta` to the zoom, which stops at the ends of its range, and
    /// gives the camera for the new zoom.
    #[allow(non_snake_case)]
    pub fn onZoomChanged(&mut self, delta: i32) -> (camera: LookAt)
        ensures
            final(self).zoom() == zoom_after(old(self).zoom(), delta),
            camera == camera_at(final(self).zoom()),
            camera.is_degenerate() <==> final(self).zoom() == 0,
            final(self).speed() == old(self).speed(),
            final(self).models() == old(self).models(),
            final(self).satellites() == old(self).satellites(),
            final(self).dirt_texture() == old(self).dirt_texture(),
    {
        let sum: i64 = self.zoom as i64 + delta as i64;
        if sum > i32::MAX as i64 {
            self.zoom = i32::MAX;
        } else if sum < i32::MIN as i64 {
            self.zoom = i32::MIN;
        } else {
            self.zoom = sum as i32;
        }
        self.changeCameraZoom()
    }

    /// Sets the angle by which the view turns in each frame; zero stops the
    /// camera.
    #[allow(non_snake_case)]
    pub fn onSpeedChanged(&mut self, speed: i32)
        ensures
            final(self).speed() == speed,
            final(self).zoom() == old(self).zoom(),
            final(self).models() == old(self).models(),
            final(self).satellites() == old(self).satellites(),
            final(self).dirt_texture() == old(self).dirt_texture(),
    {
        self.speed = speed;
    }

    /// Puts `model` into the scene under `name`, in place of any model that
    /// had the name.
    #[allow(non_snake_case)]
    pub fn addModel(&mut self, name: &str, model: Drawable<T>)
        ensures
            final(self).models() == old(self).models().insert(name@, model),
            final(self).zoom() == old(self).zoom(),
            final(self).speed() == old(self).speed(),
            final(self).satellites() == old(self).satellites(),
            final(self).dirt_texture() == old(self).dirt_texture(),
    {
        self.models.insert(name.to_owned(), model);
    }

    /// Replaces the satellites by as many new ones, each a position that
    /// `spherical_rand` gives for the radius of their sphere.
    #[allow(non_snake_case)]
    pub fn generateRandomPos<F>(&mut self, spherical_rand: &F) where F: Fn(i32) -> Vec3<T>
        requires
            call_requires(*spherical_rand, (SATELLITE_RADIUS,)),
        ensures
            final(self).satellites().len() == SATELLITE_COUNT,
            forall|i: int|
                0 <= i < SATELLITE_COUNT ==> call_ensures(
                    *spherical_rand,
                    (SATELLITE_RADIUS,),
                    #[trigger] final(self).satellites()[i],
                ),
            final(self).zoom() == old(self).zoom(),
            final(self).speed() == old(self).speed(),
            final(self).models() == old(self).models(),
            final(self).dirt_texture() == old(self).dirt_texture(),
    {
        self.random_pos_vector.clear();
        let mut i: usize = 0;
        while i < SATELLITE_COUNT
            invariant
                i <= SATELLITE_COUNT,
                call_requires(*spherical_rand, (SATELLITE_RADIUS,)),
                self.random_pos_vector@.len() == i,
                forall|j: int|
                    0 <= j < i ==> call_ensures(
                        *spherical_rand,
                        (SATELLITE_RADIUS,),
                        #[trigger] self.random_pos_vector@[j],
                    ),
                self.zoom == old(self).zoom,
                self.speed == old(self).speed,
                self.models == old(self).models,
                self.dirt_texture == old(self).dirt_texture,
            decreases SATELLITE_COUNT - i,
        {
            let position = spherical_rand(SATELLITE_RADIUS);
            self.random_pos_vector.push(position);
            i = i + 1;
        }
    }

    /// The positions of the satellites.
    pub fn random_pos_vector(&self) -> (positions: &Vec<Vec3<T>>)
        ensures
            positions@ == self.satellites(),
    {
        &self.random_pos_vector
    }

    /// The model of the scene with the given name, if there is one.
    pub fn model(&self, name: &str) -> (model: Option<&Drawable<T>>)
        ensures
            match model {
                Some(found) => self.models().contains_key(name@) && *found == self.models()[name@],
                None => !self.models().contains_key(name@),
            },
    {
        self.models.get(name)
    }

    /// Tells whether the scene holds what a frame draws.
    pub fn is_drawable(&self) -> (drawable: bool)
        ensures
            drawable == self.can_draw(),
    {
        self.models.contains_key("ant") && (self.random_pos_vector.len() == 0
            || self.models.contains_key("sphere"))
    }

    /// Plans one frame. The state stays as it is: the matrices that the
    /// rotations apply to are kept with the GPU.
    pub fn draw(&self) -> (steps: Vec<FrameStep>)
        requires
            self.can_draw(),
        ensures
            steps@ == frame_steps(
                self.speed(),
                self.models()["ant"@].solid_call(),
                self.models()["sphere"@].solid_call(),
                self.dirt_texture(),
                self.satellites().len(),
            ),
    {
        let mut steps: Vec<FrameStep> = Vec::new();
        steps.push(
            FrameStep::Prepare(
                Viewport { x: 0, y: 0, width: VIEWPORT_WIDTH, height: VIEWPORT_HEIGHT },
            ),
        );
        steps.push(
            FrameStep::RotateModel(
                Rotation { hundredths: MODEL_ROTATION_STEP, axis: Vec3 { x: 1, y: 1, z: 0 } },
            ),
        );
        steps.push(
            FrameStep::RotateView(
                Rotation { hundredths: self.speed, axis: Vec3 { x: 0, y: 1, z: 0 } },
            ),
        );
        let imported = match self.models.get("ant") {
            Some(model) => model.draw_solid(false),
            None => DrawCall::Nothing,
        };
        steps.push(FrameStep::DrawImported { shader: Shader::Simple, call: imported });
        let ghost sphere_call = self.models()["sphere"@].solid_call();
        let mut index: usize = 0;
        while index < self.random_pos_vector.len()
            invariant
                index <= self.random_pos_vector@.len(),
                self.can_draw(),
                sphere_call == self.models()["sphere"@].solid_call(),
                steps@ == frame_steps(
                    self.speed(),
                    self.models()["ant"@].solid_call(),
                    sphere_call,
                    self.dirt_texture(),
                    index as nat,
                ),
            decreases self.random_pos_vector@.len() - index,
        {
            let call = match self.models.get("sphere") {
                Some(model) => model.draw_solid(false),
                None => DrawCall::Nothing,
            };
            steps.push(
                FrameStep::DrawSatellite {
                    shader: Shader::Lambert,
                    index,
                    texture: self.dirt_texture,
                    call,
                },
            );
            index = index + 1;
            assert(steps@ =~= frame_steps(
                self.speed(),
                self.models()["ant"@].solid_call(),
                sphere_call,
                self.dirt_texture(),
                index as nat,
            ));
        }
        steps
    }

    /// The viewport for a window of the given size.
    pub fn resize(&self, width: i32, height: i32) -> (viewport: Viewport)
        ensures
            viewport == (Viewport { x: 0, y: 0, width, height }),
    {
        Viewport { x: 0, y: 0, width, height }
    }
}

} // verus!
