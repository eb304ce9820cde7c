//! Placement of the overlay window near the cursor, clamped into the work
//! area of a monitor. All coordinates are whole device pixels.

use vstd::prelude::*;

verus! {

/// Distance kept between the window and each edge of the work area.
pub const MARGIN: i64 = 14;

/// How far above the cursor the window's top edge is placed.
pub const VERTICAL_OFFSET: i64 = 56;

/// Cursor position in global device coordinates.
#[derive(Clone, Copy, Debug, PartialEq, Eq, Structural)]
pub struct CursorPoint {
    pub x: i32,
    pub y: i32,
}

/// Outer extent of the overlay window.
#[derive(Clone, Copy, Debug, PartialEq, Eq, Structural)]
pub struct WindowSize {
    pub width: u32,
    pub height: u32,
}

/// Usable rectangle of a monitor, without taskbars and docks.
#[derive(Clone, Copy, Debug, PartialEq, Eq, Structural)]
pub struct WorkArea {
    pub x: i32,
    pub y: i32,
    pub width: u32,
    pub height: u32,
}

/// `value` brought into `[lo, hi]`; where the range is empty, `lo`.
pub open spec fn clamp_spec(value: int, lo: int, hi: int) -> int {
    if hi < lo || value < lo {
        lo
    } else if value > hi {
        hi
    } else {
        value
    }
}

/// Left edge that centres the window on the cursor (half the width in
/// whole pixels, rounded down).
pub open spec fn desired_x(cursor: CursorPoint, size: WindowSize) -> int {
    cursor.x - size.width / 2
}

/// Top edge that places the window just below a menu-bar-height click.
pub open spec fn desired_y(cursor: CursorPoint) -> int {
    cursor.y - VERTICAL_OFFSET
}

pub open spec fn min_x(area: WorkArea) -> int {
    area.x + MARGIN
}

pub open spec fn max_x(area: WorkArea, size: WindowSize) -> int {
    area.x + area.width - size.width - MARGIN
}

pub open spec fn min_y(area: WorkArea) -> int {
    area.y + MARGIN
}

pub open spec fn max_y(area: WorkArea, size: WindowSize) -> int {
    area.y + area.height - size.height - MARGIN
}

/// Top-left corner of the window for a cursor, a window size and, where one
/// is known, the work area of the monitor under the cursor.
pub open spec fn resolved(cursor: CursorPoint, size: WindowSize, area: Option<WorkArea>) -> (int, int) {
    match area {
        Some(a) => (
            clamp_spec(desired_x(cursor, size), min_x(a), max_x(a, size)),
            clamp_spec(desired_y(cursor), min_y(a), max_y(a, size)),
        ),
        None => (desired_x(cursor, size), desired_y(cursor)),
    }
}

/// `v` as an `i32`, saturating at the type's bounds.
pub open spec fn saturate_i32(v: int) -> i32 {
    if v < i32::MIN {
        i32::MIN
    } else if v > i32::MAX {
        i32::MAX
    } else {
        v as i32
    }
}

/// Clamps `value` into `[min, max]`; an empty range yields `min`, so the
/// window may overflow an edge rather than get an invalid placement.
pub fn clamp_coord(value: i64, min: i64, max: i64) -> (r: i64)
    ensures
        r == clamp_spec(value as int, min as int, max as int),
{
    if max < min || value < min {
        min
    } else if value > max {
        max
    } else {
        value
    }
}

/// Top-left corner for the window: centred horizontally on the cursor, a
/// fixed offset above it, and kept inside the work area when there is one.
pub fn resolve_position(cursor: CursorPoint, size: WindowSize, area: Option<WorkArea>) -> (r: (i64, i64))
    ensures
        (r.0 as int, r.1 as int) == resolved(cursor, size, area),
{
    let x = cursor.x as i64 - (size.width / 2) as i64;
    let y = cursor.y as i64 - VERTICAL_OFFSET;
    match area {
        Some(a) => {
            let lo_x = a.x as i64 + MARGIN;
            let hi_x = a.x as i64 + a.width as i64 - size.width as i64 - MARGIN;
            let lo_y = a.y as i64 + MARGIN;
            let hi_y = a.y as i64 + a.height as i64 - size.height as i64 - MARGIN;
            (clamp_coord(x, lo_x, hi_x), clamp_coord(y, lo_y, hi_y))
        },
        None => (x, y),
    }
}

/// The work area to place the window in: the monitor under the cursor, else
/// the window's current monitor, else the primary monitor, else none.
pub fn pick_work_area(
    under_cursor: Option<WorkArea>,
    current: Option<WorkArea>,
    primary: Option<WorkArea>,
) -> (r: Option<WorkArea>)
    ensures
        r == (if under_cursor is Some {
            under_cursor
        } else if current is Some {
            current
        } else {
            primary
        }),
{
    match under_cursor {
        Some(a) => Some(a),
        None => match current {
            Some(a) => Some(a),
            None => primary,
        },
    }
}

/// Narrows a coordinate to `i32`, saturating at the bounds.
pub fn to_device_coord(v: i64) -> (r: i32)
    ensures
        r == saturate_i32(v as int),
{
    if v < i32::MIN as i64 {
        i32::MIN
    } else if v > i32::MAX as i64 {
        i32::MAX
    } else {
        v as i32
    }
}

/// Where to move the window so that it appears near the cursor. Without a
/// cursor position or a window size the window is not moved (`None`).
pub fn position_window_near_cursor(
    cursor: Option<CursorPoint>,
    size: Option<WindowSize>,
    area: Option<WorkArea>,
) -> (r: Option<(i32, i32)>)
    ensures
        match (cursor, size) {
            (Some(c), Some(s)) => r == Some(
                (saturate_i32(resolved(c, s, area).0), saturate_i32(resolved(c, s, area).1)),
            ),
            _ => r is None,
        },
{
    match (cursor, size) {
        (Some(c), Some(s)) => {
            let (x, y) = resolve_position(c, s, area);
            Some((to_device_coord(x), to_device_coord(y)))
        },
        _ => None,
    }
}

/// Where the work area leaves room for the window and both margins, the
/// window's top-left corner lies within the margins on both axes.
pub proof fn lemma_resolved_within_work_area(cursor: CursorPoint, size: WindowSize, area: WorkArea)
    requires
        area.width >= size.width + 2 * MARGIN,
        area.height >= size.height + 2 * MARGIN,
    ensures
        min_x(area) <= resolved(cursor, size, Some(area)).0 <= max_x(area, size),
        min_y(area) <= resolved(cursor, size, Some(area)).1 <= max_y(area, size),
{
}

/// Where the work area is narrower than the window and both margins, the
/// window's left edge sits at the left margin.
pub proof fn lemma_narrow_work_area_pins_left(cursor: CursorPoint, size: WindowSize, area: WorkArea)
    requires
        area.width < size.width + 2 * MARGIN,
    ensures
        resolved(cursor, size, Some(area)).0 == area.x + MARGIN,
{
}

/// Where the work area is shorter than the window and both margins, the
/// window's top edge sits at the top margin.
pub proof fn lemma_short_work_area_pins_top(cursor: CursorPoint, size: WindowSize, area: WorkArea)
    requires
        area.height < size.height + 2 * MARGIN,
    ensures
        resolved(cursor, size, Some(area)).1 == area.y + MARGIN,
{
}

/// Without a work area the window goes exactly where the cursor asks.
pub proof fn lemma_no_work_area_unclamped(cursor: CursorPoint, size: WindowSize)
    ensures
        resolved(cursor, size, None) == (cursor.x - size.width / 2, cursor.y - VERTICAL_OFFSET),
{
}

} // verus!
