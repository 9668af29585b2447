use rust_sdl2_webgl::bits::Vec3Bits;
use rust_sdl2_webgl::render::camera::Camera;
use rust_sdl2_webgl::top_down_camera::TopDownCamera;

fn v3(x: f32, y: f32, z: f32) -> Vec3Bits {
    Vec3Bits { x: x.to_bits(), y: y.to_bits(), z: z.to_bits() }
}

fn up_for_look(look: Vec3Bits) -> Vec3Bits {
    TopDownCamera::new(v3(0.0, 0.0, 0.0), look).up_direction()
}

#[test]
fn new_follow_camera_targets_its_start_with_default_speed() {
    let start = v3(0.0, 25.0, -10.0);
    let look = v3(0.0, -0.970143, 0.242536); // unit vector toward (0, -20, 5)
    let camera = TopDownCamera::new(start, look);
    assert_eq!(camera.current_position, start);
    assert_eq!(camera.look_direction, look);
    assert_eq!(camera.target_position, start);
    assert_eq!(f32::from_bits(camera.move_speed_multi), 2.0);
}

#[test]
fn set_target_overwrites_only_the_target() {
    let start = v3(1.0, 2.0, 3.0);
    let look = v3(0.0, -1.0, 0.0);
    let mut camera = TopDownCamera::new(start, look);
    camera.set_target(v3(10.0, 0.0, 0.0));
    assert_eq!(camera.target_position, v3(10.0, 0.0, 0.0));
    assert_eq!(camera.current_position, start);
    assert_eq!(camera.look_direction, look);
    assert_eq!(f32::from_bits(camera.move_speed_multi), 2.0);
}

#[test]
fn straight_down_look_selects_z_up() {
    assert_eq!(up_for_look(v3(0.0, -1.0, 0.0)), v3(0.0, 0.0, 1.0));
}

#[test]
fn oblique_look_selects_y_up() {
    assert_eq!(up_for_look(v3(0.0, -0.5, 0.5)), v3(0.0, 1.0, 0.0));
}

#[test]
fn up_selection_follows_the_straight_down_band() {
    // The band is [-1.01, -0.99] on the y component.
    assert_eq!(up_for_look(v3(0.0, -0.99, 0.0)), v3(0.0, 0.0, 1.0));
    assert_eq!(up_for_look(v3(0.0, -1.01, 0.0)), v3(0.0, 0.0, 1.0));
    assert_eq!(up_for_look(v3(0.0, -0.98, 0.1)), v3(0.0, 1.0, 0.0));
    assert_eq!(up_for_look(v3(0.0, -1.02, 0.0)), v3(0.0, 1.0, 0.0));
    assert_eq!(up_for_look(v3(0.0, 1.0, 0.0)), v3(0.0, 1.0, 0.0));
    let nan_y = Vec3Bits { x: 0.0f32.to_bits(), y: f32::NAN.to_bits(), z: 0.0f32.to_bits() };
    assert_eq!(up_for_look(nan_y), v3(0.0, 1.0, 0.0));
}

#[test]
fn apply_to_render_camera_points_it_along_the_pose() {
    let mut render_camera = Camera::make_projection(
        0.1f32.to_bits(),
        100.0f32.to_bits(),
        1.0f32.to_bits(),
        90.0f32.to_bits(),
    );
    let camera = TopDownCamera::new(v3(1.0, 2.0, 3.0), v3(0.0, -1.0, 0.0));
    // current_position + look_direction, the sum the platform layer hands in.
    let look_target = v3(1.0, 1.0, 3.0);
    camera.apply_to_render_camera(&mut render_camera, look_target);
    let view = render_camera.get_view_transform();
    assert_eq!(view.eye, v3(1.0, 2.0, 3.0));
    assert_eq!(view.target, look_target);
    assert_eq!(view.up, v3(0.0, 0.0, 1.0));
}
