use rust_sdl2_webgl::input::{InputState, MouseState};

#[test]
fn default_input_has_everything_released_at_origin() {
    let input = InputState::default();
    assert_eq!(input.mouse_state.position_x, 0);
    assert_eq!(input.mouse_state.position_y, 0);
    assert!(!input.mouse_state.left_btn_down);
    assert!(!input.mouse_state.middle_btn_down);
    assert!(!input.mouse_state.right_btn_down);
}

#[test]
fn set_position_moves_the_pointer_only() {
    let mut mouse = MouseState::default();
    mouse.set_position(640, 360);
    assert_eq!(mouse.position_x, 640);
    assert_eq!(mouse.position_y, 360);
    assert!(!mouse.left_btn_down);
}

#[test]
fn button_codes_map_to_primary_middle_secondary() {
    let mut mouse = MouseState::default();
    mouse.set_button(0, true);
    assert!(mouse.left_btn_down && !mouse.middle_btn_down && !mouse.right_btn_down);
    mouse.set_button(1, true);
    assert!(mouse.middle_btn_down);
    mouse.set_button(2, true);
    assert!(mouse.right_btn_down);
    mouse.set_button(0, false);
    assert!(!mouse.left_btn_down && mouse.middle_btn_down && mouse.right_btn_down);
}

#[test]
fn unknown_button_codes_are_ignored() {
    let mut mouse = MouseState::default();
    mouse.set_button(7, true);
    assert!(!mouse.left_btn_down && !mouse.middle_btn_down && !mouse.right_btn_down);
    mouse.set_button(-1, true);
    assert!(!mouse.left_btn_down && !mouse.middle_btn_down && !mouse.right_btn_down);
}
