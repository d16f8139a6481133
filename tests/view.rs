use surface_graph::transform::ControlRect;
use surface_graph::view_state::{
    update_dynamic_data, update_mouse_down, update_mouse_position, AppState, RotationStep,
};

#[test]
fn initial_state_is_blank() {
    let s = AppState::new();
    assert_eq!(s.canvas_height, 0);
    assert_eq!(s.canvas_width, 0);
    assert_eq!(s.control_top, 0);
    assert_eq!(s.control_right, 0);
    assert!(!s.mouse_down);
    assert_eq!((s.mouse_x, s.mouse_y), (0, 0));
}

#[test]
fn resize_centres_the_control_square() {
    let s = update_dynamic_data(&AppState::new(), 600, 800);
    assert_eq!((s.canvas_height, s.canvas_width), (600, 800));
    // Side 0.9 * 600 = 540 pixels, centred: bottom 30, top 570, left 130, right 670.
    assert_eq!(s.control_bottom, 30 * 20);
    assert_eq!(s.control_top, 570 * 20);
    assert_eq!(s.control_left, 130 * 20);
    assert_eq!(s.control_right, 670 * 20);
    assert!(s.control_right > s.control_left && s.control_top > s.control_bottom);
}

#[test]
fn resize_of_tall_canvas_and_fraction() {
    let s = update_dynamic_data(&AppState::new(), 501, 301);
    // Side 0.9 * 301 = 270.9 pixels: bottom 250.5 - 135.45 = 115.05 pixels.
    assert_eq!(s.control_bottom, 2301);
    assert_eq!(s.control_top, 7719);
    assert_eq!(s.control_left, 301 * 10 - 9 * 301);
    assert_eq!(s.control_right, 301 * 10 + 9 * 301);
}

#[test]
fn resize_keeps_the_pointer() {
    let s = update_mouse_down(&AppState::new(), 5, 7, true);
    let r = update_dynamic_data(&s, 100, 100);
    assert!(r.mouse_down);
    assert_eq!((r.mouse_x, r.mouse_y), (5, -7));
}

#[test]
fn pointer_down_flips_y() {
    let s = update_dynamic_data(&AppState::new(), 600, 800);
    let s = update_mouse_down(&s, 100, 100, true);
    assert!(s.mouse_down);
    assert_eq!((s.mouse_x, s.mouse_y), (100, 500));
    let s = update_mouse_down(&s, 120, 30, false);
    assert!(!s.mouse_down);
    assert_eq!((s.mouse_x, s.mouse_y), (120, 570));
}

#[test]
fn pointer_drag_sequence() {
    let s = update_dynamic_data(&AppState::new(), 600, 800);
    let s = update_mouse_down(&s, 100, 100, true);
    let (s, step) = update_mouse_position(&s, 110, 90);
    assert_eq!(s.mouse_x, 110);
    assert_eq!(s.mouse_y, 510);
    let step = step.unwrap();
    assert_eq!(step, RotationStep { about_x_axis: 10, about_y_axis: -10, per_width: 800 });
    let pi = std::f32::consts::PI;
    let dx_angle = pi * step.about_x_axis as f32 / step.per_width as f32;
    let dy_angle = pi * step.about_y_axis as f32 / step.per_width as f32;
    assert_eq!(dx_angle, pi * (510.0 - 500.0) / 800.0);
    assert_eq!(dy_angle, -pi * (110.0 - 100.0) / 800.0);
}

#[test]
fn released_pointer_does_not_rotate() {
    let s = update_dynamic_data(&AppState::new(), 600, 800);
    let s = update_mouse_down(&s, 100, 100, false);
    let (r, step) = update_mouse_position(&s, 300, 20);
    assert_eq!(step, None);
    assert_eq!((r.mouse_x, r.mouse_y), (300, 580));
    assert!(!r.mouse_down);
    assert_eq!(r.control_top, s.control_top);
}

#[test]
fn canvas_without_width_does_not_rotate() {
    let s = update_mouse_down(&AppState::new(), 0, 0, true);
    let (r, step) = update_mouse_position(&s, 50, 50);
    assert_eq!(step, None);
    assert_eq!((r.mouse_x, r.mouse_y), (50, -50));
}

#[test]
fn graph_area_is_inset() {
    let s = update_dynamic_data(&AppState::new(), 600, 800);
    let a = s.graph_area();
    assert_eq!(a, ControlRect { bottom: 50 * 20, top: 550 * 20, left: 150 * 20, right: 650 * 20 });
}
