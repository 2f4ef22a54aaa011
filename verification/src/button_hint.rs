//! Button hints: a button's icon beside a label saying what it does, laid out in rows along
//! the bottom of the screen.

use vstd::prelude::*;
use crate::button_icon::half_toward_zero;
use crate::geom::{Point, Rect, fits_i32};

verus! {

/// The tops of the icon and the label of a hint whose row starts at `y`: each is centred on
/// the taller of the two.
pub open spec fn spec_hint_tops(y: int, button_h: int, label_h: int) -> (int, int) {
    let max_h = if button_h >= label_h {
        button_h
    } else {
        label_h
    };
    (y + half_toward_zero(max_h - button_h), y + half_toward_zero(max_h - label_h))
}

/// The arithmetic of laying out a hint stays within `i32`.
pub open spec fn hint_layout_fits(point: Point, button_h: i32, label_h: i32, x: int, margin_x: i32) -> bool {
    &&& 0 <= button_h
    &&& 0 <= label_h
    &&& point.y + button_h + label_h <= i32::MAX
    &&& fits_i32(x)
    &&& fits_i32(x + half_toward_zero(margin_x as int))
    &&& fits_i32(x - half_toward_zero(margin_x as int))
}

/// The positions of the icon and the label of a left-aligned hint at `point`: the icon at the
/// left, the label after the icon's width `button_w` and half a margin.
pub fn layout_left(
    point: Point,
    button_h: i32,
    label_h: i32,
    button_w: u32,
    margin_x: i32,
) -> (r: (Point, Point))
    requires
        button_w <= i32::MAX,
        hint_layout_fits(point, button_h, label_h, point.x + button_w, margin_x),
    ensures
        r.0 == (Point { x: point.x, y: spec_hint_tops(point.y as int, button_h as int, label_h as int).0 as i32 }),
        r.1 == (Point {
            x: (point.x + button_w + half_toward_zero(margin_x as int)) as i32,
            y: spec_hint_tops(point.y as int, button_h as int, label_h as int).1 as i32,
        }),
{
    let max_height = if button_h >= label_h {
        button_h
    } else {
        label_h
    };
    let button_y = point.y + (max_height - button_h) / 2;
    let label_y = point.y + (max_height - label_h) / 2;
    let button = Point::new(point.x, button_y);
    let label = Point::new(point.x + button_w as i32 + margin_x / 2, label_y);
    (button, label)
}

/// The positions of the icon and the label of a right-aligned hint at `point`: the label at
/// the anchor, the icon half a margin left of the label's left edge `label_left`.
pub fn layout_right(
    point: Point,
    button_h: i32,
    label_h: i32,
    label_left: i32,
    margin_x: i32,
) -> (r: (Point, Point))
    requires
        hint_layout_fits(point, button_h, label_h, label_left as int, margin_x),
    ensures
        r.0 == (Point {
            x: (label_left - half_toward_zero(margin_x as int)) as i32,
            y: spec_hint_tops(point.y as int, button_h as int, label_h as int).0 as i32,
        }),
        r.1 == (Point { x: point.x, y: spec_hint_tops(point.y as int, button_h as int, label_h as int).1 as i32 }),
{
    let max_height = if button_h >= label_h {
        button_h
    } else {
        label_h
    };
    let button_y = point.y + (max_height - button_h) / 2;
    let label_y = point.y + (max_height - label_h) / 2;
    let label = Point::new(point.x, label_y);
    let button = Point::new(label_left - margin_x / 2, button_y);
    (button, label)
}

/// Where the two rows of hints start on a display `display`: the left row a margin in from
/// the bottom-left corner, the right row anchored near the bottom-right corner, both a button
/// diameter and a margin above the bottom.
pub open spec fn spec_rows_origin(display: Rect, diameter: u32, margin_x: i32, margin_y: i32) -> (
    Point,
    Point,
) {
    let y = display.y + display.h - diameter - margin_x;
    (
        Point { x: (display.x + margin_x) as i32, y: y as i32 },
        Point { x: (display.x + display.w - margin_y) as i32, y: y as i32 },
    )
}

/// Where the two rows of hints start on a display.
pub fn rows_origin(display: Rect, diameter: u32, margin_x: i32, margin_y: i32) -> (r: (Point, Point))
    requires
        display.w <= i32::MAX,
        display.h <= i32::MAX,
        diameter <= i32::MAX,
        fits_i32(display.x + margin_x),
        fits_i32(display.x + display.w),
        fits_i32(display.x + display.w - margin_y),
        fits_i32(display.y + display.h),
        fits_i32(display.y + display.h - diameter),
        fits_i32(display.y + display.h - diameter - margin_x),
    ensures
        r == spec_rows_origin(display, diameter, margin_x, margin_y),
{
    let y = display.y + display.h as i32 - diameter as i32 - margin_x;
    (Point::new(display.x + margin_x, y), Point::new(display.x + display.w as i32 - margin_y, y))
}

/// The area of the hints: the union of the rows, widened to run from the left row's left
/// edge to the right row's right edge.
pub open spec fn spec_hints_box(left: Option<Rect>, right: Option<Rect>) -> Rect {
    let with_left = match left {
        Some(l) => Rect { x: 0, y: 0, w: 0, h: 0 }.spec_union(l),
        None => Rect { x: 0, y: 0, w: 0, h: 0 },
    };
    let bbox = match right {
        Some(r) => with_left.spec_union(r),
        None => with_left,
    };
    if bbox.w > 0 && bbox.h > 0 {
        let left_x = match left {
            Some(l) => l.x,
            None => bbox.x,
        };
        let right_box = match right {
            Some(r) => r,
            None => bbox,
        };
        Rect { x: left_x, y: bbox.y, w: (right_box.spec_right() - left_x) as u32, h: bbox.h }
    } else {
        bbox
    }
}

/// The arithmetic of the hints' area stays within `i32`.
pub open spec fn hints_box_fits(left: Option<Rect>, right: Option<Rect>) -> bool {
    &&& left matches Some(l) ==> l.edges_fit()
    &&& right matches Some(r) ==> r.edges_fit()
    &&& match (left, right) {
        (Some(l), Some(r)) => l.union_fits(r) && fits_i32(r.spec_right() - l.x),
        _ => true,
    }
}

/// The area of the hints, given the areas of the rows that are laid out.
pub fn hints_bounding_box(left: Option<Rect>, right: Option<Rect>) -> (b: Rect)
    requires
        hints_box_fits(left, right),
    ensures
        b == spec_hints_box(left, right),
{
    let mut bbox = Rect::zero();
    if let Some(l) = left {
        bbox = bbox.union(&l);
    }
    if let Some(r) = right {
        bbox = bbox.union(&r);
    }
    if bbox.w > 0 && bbox.h > 0 {
        let left_x = match left {
            Some(l) => l.x,
            None => bbox.x,
        };
        let right_box = match right {
            Some(r) => r,
            None => bbox,
        };
        let right_edge = right_box.x + right_box.w as i32;
        Rect::new(left_x, bbox.y, (right_edge - left_x) as u32, bbox.h)
    } else {
        bbox
    }
}

} // verus!
