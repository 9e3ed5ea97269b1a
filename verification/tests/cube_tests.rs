use cosmic_ant::models::cube::{
    intertwine_arrays, Cube, CUBE_COLORS, CUBE_NORMALS, CUBE_TEX_COORDS, CUBE_VERTEX_COUNT,
    CUBE_VERTEX_NORMALS, CUBE_VERTICES,
};
use cosmic_ant::models::model::{DrawCall, DrawStep, Model, PolygonMode};

fn normal_at(i: usize) -> [i8; 4] {
    [CUBE_NORMALS[4 * i], CUBE_NORMALS[4 * i + 1], CUBE_NORMALS[4 * i + 2], CUBE_NORMALS[4 * i + 3]]
}

#[test]
fn cube_has_thirty_six_vertices() {
    let cube = Cube::new();
    assert_eq!(CUBE_VERTEX_COUNT, 36);
    assert_eq!(cube.model_params.vertex_count, 36);
    assert_eq!(cube.model_params.vertices.len(), 144);
    assert_eq!(cube.model_params.normals.len(), 144);
    assert_eq!(cube.model_params.vertex_normals.len(), 144);
    assert_eq!(cube.model_params.tex_coords.len(), 72);
    assert_eq!(CUBE_COLORS.len(), 144);
}

#[test]
fn cube_buffers_are_the_tables() {
    let cube = Cube::new();
    assert_eq!(cube.model_params.vertices, CUBE_VERTICES.to_vec());
    assert_eq!(cube.model_params.normals, CUBE_NORMALS.to_vec());
    assert_eq!(cube.model_params.vertex_normals, CUBE_VERTEX_NORMALS.to_vec());
    assert_eq!(cube.model_params.tex_coords, CUBE_TEX_COORDS.to_vec());
}

#[test]
fn cube_is_the_same_every_time() {
    let first = Cube::new();
    let second = Cube::new();
    assert_eq!(first.model_params.vertices, second.model_params.vertices);
    assert_eq!(first.model_params.normals, second.model_params.normals);
    assert_eq!(first.vertex_buffer(), second.vertex_buffer());
}

#[test]
fn cube_has_six_face_normals_six_times_each() {
    let directions: [[i8; 4]; 6] = [
        [1, 0, 0, 0],
        [-1, 0, 0, 0],
        [0, 1, 0, 0],
        [0, -1, 0, 0],
        [0, 0, 1, 0],
        [0, 0, -1, 0],
    ];
    for direction in directions {
        let times: usize = (0..CUBE_VERTEX_COUNT).filter(|i| normal_at(*i) == direction).count();
        assert_eq!(times, 6);
    }
    let mut distinct: Vec<[i8; 4]> = Vec::new();
    for i in 0..CUBE_VERTEX_COUNT {
        let normal = normal_at(i);
        if !distinct.contains(&normal) {
            distinct.push(normal);
        }
    }
    assert_eq!(distinct.len(), 6);
}

#[test]
fn cube_face_normals_go_face_by_face() {
    let faces: [[i8; 4]; 6] = [
        [0, 0, -1, 0],
        [0, 0, 1, 0],
        [1, 0, 0, 0],
        [-1, 0, 0, 0],
        [0, -1, 0, 0],
        [0, 1, 0, 0],
    ];
    for i in 0..CUBE_VERTEX_COUNT {
        assert_eq!(normal_at(i), faces[i / 6]);
    }
}

#[test]
fn cube_face_normals_convert_to_unit_vectors() {
    for i in 0..CUBE_VERTEX_COUNT {
        let n = normal_at(i);
        let x: f32 = n[0] as f32;
        let y: f32 = n[1] as f32;
        let z: f32 = n[2] as f32;
        assert_eq!((x * x + y * y + z * z).sqrt(), 1.0);
        assert_eq!(n[3] as f32, 0.0);
    }
}

#[test]
fn cube_vertices_are_the_corners() {
    for i in 0..CUBE_VERTEX_COUNT {
        for k in 0..3usize {
            let c: i8 = CUBE_VERTICES[4 * i + k];
            assert!(c == 1 || c == -1);
            assert_eq!(CUBE_VERTEX_NORMALS[4 * i + k], c);
        }
        assert_eq!(CUBE_VERTICES[4 * i + 3], 1);
        assert_eq!(CUBE_VERTEX_NORMALS[4 * i + 3], 0);
    }
    assert_eq!(&CUBE_VERTICES[0..12], &[1, -1, -1, 1, -1, 1, -1, 1, -1, -1, -1, 1]);
    assert_eq!(&CUBE_VERTICES[132..144], &[-1, 1, 1, 1, -1, 1, -1, 1, 1, 1, -1, 1]);
}

#[test]
fn cube_vertices_lie_on_the_face_of_their_normal() {
    for i in 0..CUBE_VERTEX_COUNT {
        let n = normal_at(i);
        let along: i8 = n[0] * CUBE_VERTICES[4 * i]
            + n[1] * CUBE_VERTICES[4 * i + 1]
            + n[2] * CUBE_VERTICES[4 * i + 2];
        assert_eq!(along, 1);
    }
}

#[test]
fn cube_colors_are_one_for_each_face() {
    let colors: [[i8; 4]; 6] = [
        [1, 0, 0, 1],
        [0, 1, 0, 1],
        [0, 0, 1, 1],
        [1, 1, 0, 1],
        [0, 1, 1, 1],
        [1, 1, 1, 1],
    ];
    for i in 0..CUBE_VERTEX_COUNT {
        assert_eq!(&CUBE_COLORS[4 * i..4 * i + 4], &colors[i / 6]);
    }
}

#[test]
fn cube_texture_coordinates_repeat_for_each_face() {
    let face: [i8; 12] = [1, 1, 0, 0, 0, 1, 1, 1, 1, 0, 0, 0];
    for f in 0..6usize {
        assert_eq!(&CUBE_TEX_COORDS[12 * f..12 * f + 12], &face);
    }
}

#[test]
fn intertwine_arrays_alternates_vertex_and_normal() {
    let vertices: Vec<i32> = (0..144).collect();
    let normals: Vec<i32> = (1000..1144).collect();
    let result: [i32; 288] = intertwine_arrays(&vertices, &normals);
    assert_eq!(&result[0..8], &[0, 1, 2, 3, 1000, 1001, 1002, 1003]);
    assert_eq!(&result[8..16], &[4, 5, 6, 7, 1004, 1005, 1006, 1007]);
    assert_eq!(&result[280..288], &[140, 141, 142, 143, 1140, 1141, 1142, 1143]);
    for i in 0..36usize {
        for k in 0..4usize {
            assert_eq!(result[8 * i + k], vertices[4 * i + k]);
            assert_eq!(result[8 * i + 4 + k], normals[4 * i + k]);
        }
    }
}

#[test]
fn intertwine_arrays_takes_floating_point() {
    let vertices: Vec<f32> = CUBE_VERTICES.iter().map(|v| *v as f32).collect();
    let normals: Vec<f32> = CUBE_VERTEX_NORMALS.iter().map(|v| *v as f32).collect();
    let result: [f32; 288] = intertwine_arrays(&vertices, &normals);
    assert_eq!(&result[0..8], &[1.0, -1.0, -1.0, 1.0, 1.0, -1.0, -1.0, 0.0]);
}

#[test]
fn cube_vertex_buffer_intertwines_positions_and_smooth_normals() {
    let cube = Cube::new();
    let buffer: [i8; 288] = cube.vertex_buffer();
    assert_eq!(&buffer[0..8], &[1, -1, -1, 1, 1, -1, -1, 0]);
    assert_eq!(&buffer[8..16], &[-1, 1, -1, 1, -1, 1, -1, 0]);
    for i in 0..36usize {
        for k in 0..4usize {
            assert_eq!(buffer[8 * i + k], CUBE_VERTICES[4 * i + k]);
            assert_eq!(buffer[8 * i + 4 + k], CUBE_VERTEX_NORMALS[4 * i + k]);
        }
    }
}

#[test]
fn cube_draws_its_vertices_as_triangles() {
    let mut cube = Cube::new();
    assert_eq!(cube.draw_solid(true), DrawCall::Arrays { vao: 0, vbo: 0, vertex_count: 36 });
    cube.set_buffers(5, 6);
    let call = DrawCall::Arrays { vao: 5, vbo: 6, vertex_count: 36 };
    assert_eq!(cube.draw_solid(false), call);
    assert_eq!(
        cube.draw_wire(Some(true)),
        vec![
            DrawStep::SetPolygonMode(PolygonMode::Line),
            DrawStep::Draw(call),
            DrawStep::SetPolygonMode(PolygonMode::Fill),
        ]
    );
    assert_eq!(cube.read_model_params().vertex_count, 36);
    cube.get_model_params().vertex_count = 3;
    assert_eq!(cube.draw_solid(false), DrawCall::Arrays { vao: 5, vbo: 6, vertex_count: 3 });
}
