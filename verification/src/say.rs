//! Showing a message in the middle of the screen, in a rounded bubble.

use vstd::prelude::*;
use crate::geom::{Point, Rect};

verus! {

/// Where a message of `lines` lines of a font `font_size` high is anchored on a screen `w` by
/// `h`: at the middle of the screen across, and so that its lines are centred down it.
pub fn message_anchor(w: u32, h: u32, lines: u32, font_size: u32) -> (p: Point)
    requires
        lines * font_size <= h,
        w <= i32::MAX,
        h <= i32::MAX,
    ensures
        p.x == w / 2,
        p.y == (h - lines * font_size) / 2,
{
    let height = lines * font_size;
    Point::new(w as i32 / 2, (h - height) as i32 / 2)
}

/// The bubble behind a message whose text covers `text_box`: 12 pixels wider on each side and
/// 8 higher above and below, with corners half the font size and 4 pixels round.
pub fn message_bubble(text_box: Rect, font_size: u32) -> (r: (Rect, u32))
    requires
        i32::MIN + 12 <= text_box.x,
        i32::MIN + 8 <= text_box.y,
        text_box.w + 24 <= u32::MAX,
        text_box.h + 16 <= u32::MAX,
        font_size + 8 <= u32::MAX,
    ensures
        r.0 == (Rect {
            x: (text_box.x - 12) as i32,
            y: (text_box.y - 8) as i32,
            w: (text_box.w + 24) as u32,
            h: (text_box.h + 16) as u32,
        }),
        r.1 == (font_size + 8) / 2,
{
    (Rect::new(text_box.x - 12, text_box.y - 8, text_box.w + 24, text_box.h + 16), (font_size + 8) / 2)
}

} // verus!
