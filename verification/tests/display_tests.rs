use prism::display::{DisplayServer, FrameOps};
use prism::geometry::Rect;
use prism::window::Window;

fn server_with_screen(w: i32, h: i32) -> DisplayServer {
    let mut d = DisplayServer::new();
    d.setup_renderer(w, h);
    d
}

fn titled(x: i32, y: i32, w: i32, h: i32) -> Window {
    Window::new_titled("w".to_string(), Rect::new(x, y, w, h))
}

#[test]
fn new_display_is_empty_and_clean() {
    let d = DisplayServer::new();
    assert!(d.windows.is_empty());
    assert!(!d.is_mouse_dirty && !d.is_window_dirty && !d.is_background_dirty);
    assert!(!d.low_state_mode && !d.renderer_ready);
    assert_eq!(d.active_id, None);
}

#[test]
fn get_center_centres_on_screen() {
    let d = server_with_screen(1920, 1080);
    let r = d.get_center(640, 480);
    assert_eq!(r.position.x, 640);
    assert_eq!(r.position.y, 300);
    assert_eq!(r.size.width, 640);
    assert_eq!(r.size.height, 480);
}

#[test]
fn add_window_activates_and_marks_dirty() {
    let mut d = server_with_screen(800, 600);
    assert!(d.add_window(titled(0, 0, 100, 100), 1));
    assert!(d.is_window_dirty);
    assert_eq!(d.active_id, Some(1));
    assert!(d.windows.get(&1).unwrap().is_active());
}

#[test]
fn add_window_rejects_taken_id() {
    let mut d = server_with_screen(800, 600);
    assert!(d.add_window(titled(0, 0, 100, 100), 1));
    assert!(!d.add_window(titled(5, 5, 50, 50), 1));
    assert_eq!(d.windows.len(), 1);
}

#[test]
fn second_window_takes_focus_from_first() {
    let mut d = server_with_screen(800, 600);
    assert!(d.add_window(titled(0, 0, 100, 100), 1));
    assert!(d.add_window(titled(10, 10, 100, 100), 2));
    assert!(!d.windows.get(&1).unwrap().is_active());
    assert!(d.windows.get(&2).unwrap().is_active());
    assert_eq!(d.active_id, Some(2));
}

#[test]
fn remove_window_is_idempotent() {
    let mut d = server_with_screen(800, 600);
    assert!(d.add_window(titled(0, 0, 100, 100), 1));
    d.remove_window(1);
    assert!(d.windows.is_empty());
    assert_eq!(d.active_id, None);
    // The second removal is a no-op, not an error.
    d.remove_window(1);
    assert!(d.windows.is_empty());
}

#[test]
fn window_getters_report_geometry() {
    let mut d = server_with_screen(800, 600);
    assert!(d.add_window(titled(7, 9, 120, 90), 4));
    let p = d.get_window_pos(4).unwrap();
    assert_eq!((p.x, p.y), (7, 9));
    let s = d.get_window_size(4).unwrap();
    assert_eq!((s.width, s.height), (120, 90));
    assert!(d.get_window_pos(5).is_none());
    assert!(d.get_window_size(5).is_none());
}

#[test]
fn wheel_updates_do_not_mark_cursor_dirty() {
    let mut d = server_with_screen(800, 600);
    d.update_mouse_wheel_delta(3, -2);
    assert!(!d.is_mouse_dirty);
    assert_eq!(d.mouse.wheel_delta_x, 3);
    assert_eq!(d.mouse.wheel_delta_y, -2);
}

#[test]
fn mouse_motion_marks_cursor_dirty() {
    let mut d = server_with_screen(800, 600);
    d.update_mouse_pos(10, 20);
    assert!(d.is_mouse_dirty);
    assert_eq!((d.mouse.x, d.mouse.y), (10, 20));
    assert_eq!((d.mouse.rel_x, d.mouse.rel_y), (10, 20));
}

#[test]
fn button_codes_map_to_buttons() {
    let mut d = server_with_screen(800, 600);
    d.update_button_state(0, true);
    d.update_button_state(1, true);
    d.update_button_state(2, true);
    assert!(d.mouse.button_left && d.mouse.button_right && d.mouse.button_middle);
    d.update_button_state(1, false);
    assert!(d.mouse.button_left && !d.mouse.button_right && d.mouse.button_middle);
    // Other codes are ignored.
    d.update_button_state(3, false);
    assert!(d.mouse.button_left && d.mouse.button_middle);
}

#[test]
fn drag_near_title_bar_moves_window() {
    let mut d = server_with_screen(1920, 1080);
    assert!(d.add_window(titled(80, 80, 400, 300), 1));
    // Pointer at (100, 100) with the last relative step (+5, +3).
    d.update_mouse_pos(95, 97);
    d.update_mouse_pos(5, 3);
    d.update_button_state(0, true);
    d.is_window_dirty = false;
    d.update();
    assert!(d.is_window_dirty);
    let p = d.windows.get(&1).unwrap().get_position();
    assert_eq!((p.x, p.y), (85, 83));
    let s = d.windows.get(&1).unwrap().get_size();
    assert_eq!((s.width, s.height), (400, 300));
}

#[test]
fn drag_without_left_button_does_nothing() {
    let mut d = server_with_screen(1920, 1080);
    assert!(d.add_window(titled(80, 80, 400, 300), 1));
    d.update_mouse_pos(95, 97);
    d.update_mouse_pos(5, 3);
    d.is_window_dirty = false;
    d.update();
    assert!(!d.is_window_dirty);
    let p = d.windows.get(&1).unwrap().get_position();
    assert_eq!((p.x, p.y), (80, 80));
}

#[test]
fn drag_resize_clamps_at_minimum_dimensions() {
    let mut d = server_with_screen(1920, 1080);
    assert!(d.add_window(titled(0, 0, 400, 300), 1));
    // Pointer at the bottom-right corner, having just jumped far up-left.
    d.update_mouse_pos(700, 600);
    d.update_mouse_pos(-300, -300);
    d.update_button_state(0, true);
    d.is_window_dirty = false;
    d.update();
    assert!(d.is_window_dirty);
    let s = d.windows.get(&1).unwrap().get_size();
    assert_eq!((s.width, s.height), (200, 200));
}

#[test]
fn drag_resize_grows_width_on_right_edge() {
    let mut d = server_with_screen(1920, 1080);
    assert!(d.add_window(titled(0, 0, 400, 300), 1));
    // Near the right edge only: x offset 400, y in the middle.
    d.update_mouse_pos(390, 150);
    d.update_mouse_pos(10, 0);
    d.update_button_state(0, true);
    d.update();
    let s = d.windows.get(&1).unwrap().get_size();
    assert_eq!((s.width, s.height), (410, 300));
}

#[test]
fn drag_resize_grows_height_on_bottom_edge() {
    let mut d = server_with_screen(1920, 1080);
    assert!(d.add_window(titled(0, 0, 400, 300), 1));
    d.update_mouse_pos(150, 295);
    d.update_mouse_pos(0, 10);
    d.update_button_state(0, true);
    d.update();
    let s = d.windows.get(&1).unwrap().get_size();
    assert_eq!((s.width, s.height), (400, 310));
}

#[test]
fn drag_move_clamps_into_screen() {
    let mut d = server_with_screen(1920, 1080);
    assert!(d.add_window(titled(10, 10, 400, 300), 1));
    // Pointer in the title-bar strip, stepping far up-left.
    d.update_mouse_pos(65, 25);
    d.update_mouse_pos(-50, -10);
    d.update_button_state(0, true);
    d.update();
    let p = d.windows.get(&1).unwrap().get_position();
    assert_eq!((p.x, p.y), (0, 0));
}

#[test]
fn drag_move_clamps_at_far_screen_edge() {
    let mut d = server_with_screen(1920, 1080);
    assert!(d.add_window(titled(1500, 100, 400, 300), 1));
    d.update_mouse_pos(1600, 110);
    d.update_mouse_pos(100, 5);
    d.update_button_state(0, true);
    d.update();
    let p = d.windows.get(&1).unwrap().get_position();
    // The x upper bound is screen width minus window width.
    assert_eq!((p.x, p.y), (1520, 105));
}

#[test]
fn tick_rebuilds_exactly_the_dirty_layers() {
    let mut d = server_with_screen(800, 600);
    d.update_mouse_pos(50, 40);
    d.is_background_dirty = true;
    d.is_window_dirty = false;
    let ops = d.tick();
    assert_eq!(
        ops,
        FrameOps {
            rerender_mouse: Some((50, 40)),
            rerender_windows: false,
            rerender_background: true,
            composite: true,
        }
    );
    assert!(!d.is_mouse_dirty && !d.is_window_dirty && !d.is_background_dirty);

    // A second tick with nothing dirty rebuilds nothing but still
    // composites.
    let ops = d.tick();
    assert_eq!(
        ops,
        FrameOps {
            rerender_mouse: None,
            rerender_windows: false,
            rerender_background: false,
            composite: true,
        }
    );
}

#[test]
fn tick_in_low_state_mode_does_nothing() {
    let mut d = server_with_screen(800, 600);
    d.update_mouse_pos(5, 5);
    d.low_state_mode = true;
    let ops = d.tick();
    assert_eq!(
        ops,
        FrameOps {
            rerender_mouse: None,
            rerender_windows: false,
            rerender_background: false,
            composite: false,
        }
    );
    assert!(d.is_mouse_dirty);
}

#[test]
fn cleanup_drops_windows_and_renderer() {
    let mut d = server_with_screen(800, 600);
    assert!(d.add_window(titled(0, 0, 100, 100), 1));
    d.cleanup();
    assert!(d.windows.is_empty());
    assert!(!d.renderer_ready);
    assert_eq!(d.active_id, None);
}

#[test]
fn frame_buffer_update_marks_window_layer() {
    let mut d = server_with_screen(800, 600);
    let data = vec![1u8, 2, 3];
    d.update_window_frame_buffer(77, &data);
    assert!(d.is_window_dirty);
}
