use prism::colour::Colour;
use prism::geometry::Rect;
use prism::render_rect;
use prism::texture::Texture;
use prism::window::Window;

fn rect(x: i32, y: i32, w: i32, h: i32) -> Rect {
    Rect::new(x, y, w, h)
}

#[test]
fn new_titled_has_title_bar() {
    let w = Window::new_titled("Main".to_string(), rect(0, 0, 800, 600));
    assert!(w.has_title_bar());
    assert!(!w.is_maximized());
    assert!(!w.is_minimized());
    assert!(!w.is_active());
    assert!(!w.has_icon());
    assert_eq!(w.get_title(), &Some("Main".to_string()));
}

#[test]
fn new_non_titled_is_bare() {
    let w = Window::new_non_titled(rect(0, 0, 800, 600));
    assert!(!w.has_title_bar());
    assert_eq!(w.get_title(), &None);
}

#[test]
fn maximized_and_minimized_never_together() {
    let mut w = Window::new_titled("w".to_string(), rect(5, 5, 100, 100));
    w.maximize();
    assert!(w.is_maximized() && !w.is_minimized());
    w.minimize();
    assert!(w.is_minimized() && !w.is_maximized());
    w.maximize();
    assert!(w.is_maximized() && !w.is_minimized());
    w.restore();
    assert!(!w.is_maximized() && !w.is_minimized());
}

#[test]
fn maximize_then_restore_recovers_rect() {
    let mut w = Window::new_titled("w".to_string(), rect(10, 10, 200, 150));
    w.maximize();
    w.restore();
    assert_eq!(w.get_position().x, 10);
    assert_eq!(w.get_position().y, 10);
    assert_eq!(w.get_size().width, 200);
    assert_eq!(w.get_size().height, 150);
    assert!(!w.is_maximized());
    assert!(!w.is_minimized());
}

#[test]
fn minimize_then_restore_recovers_rect() {
    let mut w = Window::new_non_titled(rect(-3, 44, 320, 240));
    w.minimize();
    w.restore();
    assert_eq!(w.get_position().x, -3);
    assert_eq!(w.get_position().y, 44);
    assert_eq!(w.get_size().width, 320);
    assert_eq!(w.get_size().height, 240);
    assert!(!w.is_maximized());
    assert!(!w.is_minimized());
}

#[test]
fn repeated_maximize_keeps_first_restore_rect() {
    let mut w = Window::new_titled("w".to_string(), rect(1, 2, 300, 200));
    w.maximize();
    w.maximize();
    w.restore();
    assert_eq!(w.get_position().x, 1);
    assert_eq!(w.get_position().y, 2);
}

#[test]
fn restore_without_saved_geometry_is_noop() {
    let mut w = Window::new_titled("w".to_string(), rect(1, 2, 300, 200));
    w.restore();
    assert_eq!(w.get_position().x, 1);
    assert_eq!(w.get_size().width, 300);
}

#[test]
fn move_ignored_while_maximized() {
    let mut w = Window::new_titled("w".to_string(), rect(1, 2, 300, 200));
    w.maximize();
    w.move_window(50, 60);
    assert_eq!(w.get_position().x, 1);
    w.restore();
    w.move_window(50, 260);
    assert_eq!(w.get_position().x, 50);
    // The rectangle anchors its bottom edge at the given coordinate.
    assert_eq!(w.get_position().y, 60);
}

#[test]
fn resize_ignored_while_maximized_or_minimized() {
    let mut w = Window::new_titled("w".to_string(), rect(1, 2, 300, 200));
    w.maximize();
    w.resize_window(10, 10);
    assert_eq!(w.get_size().width, 300);
    w.restore();
    w.minimize();
    w.resize_window(10, 10);
    assert_eq!(w.get_size().width, 300);
    w.restore();
    w.resize_window(10, 11);
    assert_eq!(w.get_size().width, 10);
    assert_eq!(w.get_size().height, 11);
}

#[test]
fn icon_and_active_and_title_bar_flags() {
    let mut w = Window::new_non_titled(rect(0, 0, 10, 10));
    w.set_icon(Texture::new(7, 20, 20));
    assert!(w.has_icon());
    assert_eq!(w.get_icon(), Some(&Texture::new(7, 20, 20)));
    w.remove_icon();
    assert!(!w.has_icon());
    assert_eq!(w.get_icon(), None);

    w.set_active(true);
    assert!(w.is_active());
    w.set_active(false);
    assert!(!w.is_active());

    assert!(!w.has_title_bar());
    w.toggle_title_bar();
    assert!(w.has_title_bar());
    w.toggle_title_bar();
    assert!(!w.has_title_bar());

    w.update_title(Some("late".to_string()));
    assert_eq!(w.get_title(), &Some("late".to_string()));
}

#[test]
fn geometry_rect_contains_and_proximity() {
    let r = rect(100, 100, 200, 150);
    assert!(r.contains(100, 100));
    assert!(r.contains(300, 250));
    assert!(!r.contains(301, 250));
    assert!(!r.contains(99, 120));

    // Right edge lies at x offset 200.
    assert!(r.is_near_right(300, 150, 7));
    assert!(r.is_near_right(293, 150, 7));
    assert!(!r.is_near_right(292, 150, 7));

    // Bottom edge lies at y offset 150.
    assert!(r.is_near_bottom(150, 250, 7));
    assert!(!r.is_near_bottom(150, 242, 7));

    assert!(r.is_near_bottom_right(300, 250, 7));
    assert!(!r.is_near_bottom_right(300, 150, 7));

    assert!(r.is_near_top(150, 100, 33));
    assert!(r.is_near_top(150, 133, 33));
    assert!(!r.is_near_top(150, 134, 33));
    assert!(!r.is_near_top(150, 99, 33));

    // Mask bits: right = 1, bottom = 2, top = 4.
    assert_eq!(r.get_edge_proximity(300, 250, 7), 0b011);
    assert_eq!(r.get_edge_proximity(150, 100, 7), 0b100);
    assert_eq!(r.get_edge_proximity(150, 170, 7), 0b000);
}

#[test]
fn geometry_rect_setters() {
    let mut r = rect(0, 0, 50, 40);
    r.set_size(60, 70);
    assert_eq!(r.size.width, 60);
    assert_eq!(r.size.height, 70);
    // set_pos anchors the bottom edge at the given y.
    r.set_pos(10, 100);
    assert_eq!(r.position.x, 10);
    assert_eq!(r.position.y, 30);
}

#[test]
fn render_rect_corners_and_setters() {
    let mut r = render_rect::Rect::new(10, 20, 30, 40);
    assert_eq!(r.top_left(), (10, 20));
    assert_eq!(r.top_right(), (40, 20));
    assert_eq!(r.bottom_right(), (40, 60));
    assert_eq!(r.bottom_left(), (10, 60));
    r.set_pos(1, 2);
    r.set_width(3);
    r.set_height(4);
    assert_eq!(r, render_rect::Rect::new(1, 2, 3, 4));
    r.set_size(9, 8);
    assert_eq!(r.bottom_right(), (10, 10));
}

#[test]
fn colour_constructors() {
    let c = Colour::new(1, 2, 3, 4);
    assert_eq!((c.r, c.g, c.b, c.a), (1, 2, 3, 4));
    let c = Colour::rgb(9, 8, 7);
    assert_eq!((c.r, c.g, c.b, c.a), (9, 8, 7, 255));
    let c = Colour::grayscale(32);
    assert_eq!((c.r, c.g, c.b, c.a), (32, 32, 32, 255));
    let c = Colour::grayscale_alpha(32, 225);
    assert_eq!((c.r, c.g, c.b, c.a), (32, 32, 32, 225));
    let c = Colour::black();
    assert_eq!((c.r, c.g, c.b, c.a), (0, 0, 0, 255));
    let c = Colour::white();
    assert_eq!((c.r, c.g, c.b, c.a), (255, 255, 255, 255));
    let c = Colour::red();
    assert_eq!((c.r, c.g, c.b, c.a), (255, 0, 0, 255));
    let c = Colour::green();
    assert_eq!((c.r, c.g, c.b, c.a), (0, 255, 0, 255));
    let c = Colour::blue();
    assert_eq!((c.r, c.g, c.b, c.a), (0, 0, 255, 255));
    let c = Colour::transparent();
    assert_eq!((c.r, c.g, c.b, c.a), (0, 0, 0, 0));
}
