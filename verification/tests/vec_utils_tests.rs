use cosmic_ant::utils::vec_utils::{
    vec3_ref_to_vec4, vec3_to_vec4, vec4_ref_to_vec3, vec4_to_vec3, Vec3, Vec4,
};

#[test]
fn vec3_to_vec4_appends_the_fourth_component() {
    let v3: Vec3<f32> = Vec3 { x: 1.5, y: -2.0, z: 3.25 };
    assert_eq!(vec3_to_vec4(v3, 0.0), Vec4 { x: 1.5, y: -2.0, z: 3.25, w: 0.0 });
    assert_eq!(vec3_ref_to_vec4(&v3, 1.0), Vec4 { x: 1.5, y: -2.0, z: 3.25, w: 1.0 });
}

#[test]
fn vec4_to_vec3_drops_the_fourth_component() {
    let v4: Vec4<f32> = Vec4 { x: 1.5, y: -2.0, z: 3.25, w: 7.0 };
    assert_eq!(vec4_to_vec3(v4), Vec3 { x: 1.5, y: -2.0, z: 3.25 });
    assert_eq!(vec4_ref_to_vec3(&v4), Vec3 { x: 1.5, y: -2.0, z: 3.25 });
}

#[test]
fn vec3_and_vec4_convert_back_and_forth() {
    let v3: Vec3<i32> = Vec3 { x: 4, y: 5, z: 6 };
    assert_eq!(vec4_to_vec3(vec3_to_vec4(v3, 9)), v3);
    assert_eq!(vec4_ref_to_vec3(&vec3_ref_to_vec4(&v3, 9)), v3);
}

#[test]
fn vec_conversions_agree_with_glm() {
    let v = nalgebra_glm::vec3(1.0f32, 2.0, 3.0);
    let ours = vec3_to_vec4(Vec3 { x: v.x, y: v.y, z: v.z }, 0.0);
    let theirs = nalgebra_glm::vec4(v.x, v.y, v.z, 0.0);
    assert_eq!((ours.x, ours.y, ours.z, ours.w), (theirs.x, theirs.y, theirs.z, theirs.w));
}
