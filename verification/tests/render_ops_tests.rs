use prism::colour::Colour;
use prism::geometry::Rect;
use prism::render_ops::{cursor_draw_op, window_draw_ops, DrawOp};
use prism::texture::Texture;
use prism::window::Window;

fn screen() -> Rect {
    Rect::new(0, 0, 1920, 1080)
}

#[test]
fn titled_window_with_icon_paints_frame_icon_and_body() {
    let mut w = Window::new_titled("w".to_string(), Rect::new(10, 20, 100, 80));
    w.set_icon(Texture::new(1, 20, 20));
    let ops = window_draw_ops(&w, &screen());
    assert_eq!(
        ops,
        vec![
            DrawOp {
                // Frame: body plus padding on both sides, title bar on top.
                rect: Rect::new(10, 20, 106, 113),
                colour: Colour::grayscale_alpha(32, 225),
            },
            DrawOp { rect: Rect::new(15, 25, 20, 20), colour: Colour::white() },
            DrawOp { rect: Rect::new(13, 50, 100, 80), colour: Colour::grayscale(64) },
        ]
    );
}

#[test]
fn titled_window_without_icon_skips_icon_slot() {
    let w = Window::new_titled("w".to_string(), Rect::new(0, 0, 200, 200));
    let ops = window_draw_ops(&w, &screen());
    assert_eq!(ops.len(), 2);
    assert_eq!(ops[0].rect, Rect::new(0, 0, 206, 233));
    assert_eq!(ops[1].rect, Rect::new(3, 30, 200, 200));
}

#[test]
fn bare_window_paints_only_its_body() {
    let w = Window::new_non_titled(Rect::new(40, 50, 60, 70));
    let ops = window_draw_ops(&w, &screen());
    assert_eq!(
        ops,
        vec![DrawOp { rect: Rect::new(43, 80, 60, 70), colour: Colour::grayscale(64) }]
    );
}

#[test]
fn minimized_window_paints_nothing() {
    let mut w = Window::new_titled("w".to_string(), Rect::new(0, 0, 100, 100));
    w.minimize();
    assert!(window_draw_ops(&w, &screen()).is_empty());
}

#[test]
fn maximized_window_fills_the_screen() {
    let mut w = Window::new_titled("w".to_string(), Rect::new(10, 20, 100, 80));
    w.maximize();
    let ops = window_draw_ops(&w, &screen());
    assert_eq!(ops, vec![DrawOp { rect: screen(), colour: Colour::grayscale(64) }]);
}

#[test]
fn cursor_is_painted_beside_the_pointer() {
    let op = cursor_draw_op(100, 200);
    assert_eq!(op.rect, Rect::new(99, 198, 15, 15));
    assert_eq!(op.colour, Colour::green());
}
