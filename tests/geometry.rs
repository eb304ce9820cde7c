use quicknotes_overlay::geometry::{
    clamp_coord, pick_work_area, position_window_near_cursor, resolve_position, to_device_coord,
    CursorPoint, WindowSize, WorkArea, MARGIN,
};

fn area(x: i32, y: i32, width: u32, height: u32) -> WorkArea {
    WorkArea { x, y, width, height }
}

fn size(width: u32, height: u32) -> WindowSize {
    WindowSize { width, height }
}

fn cursor(x: i32, y: i32) -> CursorPoint {
    CursorPoint { x, y }
}

#[test]
fn clamp_coord_values() {
    assert_eq!(clamp_coord(5, 0, 10), 5);
    assert_eq!(clamp_coord(-3, 0, 10), 0);
    assert_eq!(clamp_coord(12, 0, 10), 10);
    assert_eq!(clamp_coord(7, 20, 10), 20);
}

#[test]
fn resolves_centred_below_offset() {
    let r = resolve_position(cursor(500, 300), size(400, 300), Some(area(0, 0, 1920, 1080)));
    assert_eq!(r, (300, 244));
}

#[test]
fn clamps_to_top_left_margin() {
    let r = resolve_position(cursor(10, 10), size(400, 300), Some(area(0, 0, 1920, 1080)));
    assert_eq!(r, (14, 14));
}

#[test]
fn clamps_to_bottom_right_margin() {
    let r = resolve_position(cursor(1900, 1070), size(400, 300), Some(area(0, 0, 1920, 1080)));
    assert_eq!(r, (1506, 766));
}

#[test]
fn clamps_on_offset_monitor() {
    let r = resolve_position(cursor(-100, 2000), size(200, 100), Some(area(-1920, 1080, 1920, 1200)));
    assert_eq!(r, (-214, 1944));
    let r = resolve_position(cursor(-1910, 1085), size(200, 100), Some(area(-1920, 1080, 1920, 1200)));
    assert_eq!(r, (-1906, 1094));
}

#[test]
fn result_within_work_area_for_many_cursors() {
    let a = area(100, 50, 1280, 720);
    let s = size(420, 360);
    for cx in [-5000, 0, 100, 350, 640, 1200, 1380, 9000] {
        for cy in [-5000, 0, 50, 400, 770, 9000] {
            let (x, y) = resolve_position(cursor(cx, cy), s, Some(a));
            assert!(x >= 100 + MARGIN && x <= 100 + 1280 - 420 - MARGIN);
            assert!(y >= 50 + MARGIN && y <= 50 + 720 - 360 - MARGIN);
        }
    }
}

#[test]
fn narrow_work_area_pins_left_margin() {
    let r = resolve_position(cursor(300, 300), size(400, 100), Some(area(100, 50, 300, 1000)));
    assert_eq!(r.0, 114);
    let r = resolve_position(cursor(300, 300), size(400, 100), Some(area(100, 50, 427, 1000)));
    assert_eq!(r.0, 114);
}

#[test]
fn short_work_area_pins_top_margin() {
    let r = resolve_position(cursor(300, 900), size(100, 400), Some(area(0, 40, 1000, 300)));
    assert_eq!(r.1, 54);
}

#[test]
fn no_work_area_is_unclamped() {
    let r = resolve_position(cursor(5, 5), size(401, 300), None);
    assert_eq!(r, (-195, -51));
    let r = resolve_position(cursor(2000, 3000), size(400, 300), None);
    assert_eq!(r, (1800, 2944));
}

#[test]
fn work_area_resolution_order() {
    let a = Some(area(0, 0, 10, 10));
    let b = Some(area(1, 1, 10, 10));
    let c = Some(area(2, 2, 10, 10));
    assert_eq!(pick_work_area(a, b, c), a);
    assert_eq!(pick_work_area(None, b, c), b);
    assert_eq!(pick_work_area(None, None, c), c);
    assert_eq!(pick_work_area(None, None, None), None);
}

#[test]
fn device_coord_saturates() {
    assert_eq!(to_device_coord(12), 12);
    assert_eq!(to_device_coord(-5_000_000_000), i32::MIN);
    assert_eq!(to_device_coord(5_000_000_000), i32::MAX);
}

#[test]
fn position_needs_cursor_and_size() {
    let a = Some(area(0, 0, 1920, 1080));
    assert_eq!(position_window_near_cursor(None, Some(size(400, 300)), a), None);
    assert_eq!(position_window_near_cursor(Some(cursor(500, 300)), None, a), None);
    assert_eq!(
        position_window_near_cursor(Some(cursor(500, 300)), Some(size(400, 300)), a),
        Some((300, 244))
    );
    assert_eq!(
        position_window_near_cursor(Some(cursor(i32::MIN, 0)), Some(size(u32::MAX, 0)), None),
        Some((i32::MIN, -56))
    );
}
