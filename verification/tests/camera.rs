use rust_sdl2_webgl::bits::Vec3Bits;
use rust_sdl2_webgl::render::camera::{Camera, ProjectionTransform};

fn v3(x: f32, y: f32, z: f32) -> Vec3Bits {
    Vec3Bits { x: x.to_bits(), y: y.to_bits(), z: z.to_bits() }
}

#[test]
fn make_projection_starts_at_origin_looking_down_negative_z() {
    let camera = Camera::make_projection(0.1f32.to_bits(), 100.0f32.to_bits(), 1.0f32.to_bits(), 90.0f32.to_bits());
    let view = camera.get_view_transform();
    assert_eq!(view.eye, v3(0.0, 0.0, 0.0));
    assert_eq!(view.target, v3(0.0, 0.0, -1.0));
    assert_eq!(view.up, v3(0.0, 1.0, 0.0));
    match camera.get_projection() {
        ProjectionTransform::Perspective { near, far, aspect, fov } => {
            assert_eq!(f32::from_bits(near), 0.1);
            assert_eq!(f32::from_bits(far), 100.0);
            assert_eq!(f32::from_bits(aspect), 1.0);
            assert_eq!(f32::from_bits(fov), 90.0);
        }
        ProjectionTransform::Orthographic { .. } => panic!("expected a perspective projection"),
    }
}

#[test]
fn make_orthographic_keeps_the_box_and_default_pose() {
    let camera = Camera::make_orthographic(
        0.0f32.to_bits(),
        1024.0f32.to_bits(),
        768.0f32.to_bits(),
        0.0f32.to_bits(),
        (-1.0f32).to_bits(),
        1.0f32.to_bits(),
    );
    let view = camera.get_view_transform();
    assert_eq!(view.eye, v3(0.0, 0.0, 0.0));
    assert_eq!(view.target, v3(0.0, 0.0, -1.0));
    assert_eq!(view.up, v3(0.0, 1.0, 0.0));
    match camera.get_projection() {
        ProjectionTransform::Orthographic { left, right, bottom, top, near, far } => {
            assert_eq!(f32::from_bits(left), 0.0);
            assert_eq!(f32::from_bits(right), 1024.0);
            assert_eq!(f32::from_bits(bottom), 768.0);
            assert_eq!(f32::from_bits(top), 0.0);
            assert_eq!(f32::from_bits(near), -1.0);
            assert_eq!(f32::from_bits(far), 1.0);
        }
        ProjectionTransform::Perspective { .. } => panic!("expected an orthographic projection"),
    }
}

#[test]
fn look_at_updates_the_pose_and_keeps_the_projection() {
    let mut camera = Camera::make_projection(
        0.1f32.to_bits(),
        100.0f32.to_bits(),
        1.0f32.to_bits(),
        90.0f32.to_bits(),
    );
    camera.look_at(v3(0.0, 25.0, -10.0), v3(0.0, 5.0, -5.0), v3(0.0, 1.0, 0.0));
    let view = camera.get_view_transform();
    assert_eq!(view.eye, v3(0.0, 25.0, -10.0));
    assert_eq!(view.target, v3(0.0, 5.0, -5.0));
    assert_eq!(view.up, v3(0.0, 1.0, 0.0));
    assert!(matches!(camera.get_projection(), ProjectionTransform::Perspective { .. }));
}
