//! Where the colour picker is drawn, right-aligned at its anchor: a square showing the colour
//! left of the anchor with a one-pixel border cut to the screen, then leftwards the eight
//! hexadecimal digits, last first, and a `#`.

use vstd::prelude::*;
use crate::geom::{Point, Rect};

verus! {

/// The text style a digit is drawn in.
#[derive(Debug, Clone, Copy, PartialEq, Eq, Structural)]
pub enum DigitStyle {
    /// Not being edited.
    Plain,
    /// Being edited, on a background.
    Focused,
    /// The digit being edited: on a background and underlined.
    Selected,
}

/// The style of digit `digit` while the digit `edit` is edited (`None` when not editing).
pub open spec fn spec_digit_style(edit: Option<usize>, digit: int) -> DigitStyle {
    match edit {
        Some(e) => if e == digit {
            DigitStyle::Selected
        } else {
            DigitStyle::Focused
        },
        None => DigitStyle::Plain,
    }
}

/// The part of `r` on a screen `sw` by `sh`, if any of it is.
pub open spec fn spec_clip(r_x: int, r_y: int, r_w: int, r_h: int, sw: int, sh: int) -> Option<Rect> {
    let x1 = if r_x > 0 { r_x } else { 0 };
    let y1 = if r_y > 0 { r_y } else { 0 };
    let x2 = if r_x + r_w < sw { r_x + r_w } else { sw };
    let y2 = if r_y + r_h < sh { r_y + r_h } else { sh };
    if x1 < x2 && y1 < y2 {
        Some(Rect { x: x1 as i32, y: y1 as i32, w: (x2 - x1) as u32, h: (y2 - y1) as u32 })
    } else {
        None
    }
}

/// The part of `r` on a screen `sw` by `sh`, if any of it is.
fn clip(r_x: i64, r_y: i64, r_w: i64, r_h: i64, sw: u32, sh: u32) -> (c: Option<Rect>)
    requires
        i32::MIN - 1 <= r_x <= i32::MAX,
        i32::MIN - 1 <= r_y <= i32::MAX,
        0 <= r_w <= u32::MAX,
        0 <= r_h <= u32::MAX,
    ensures
        c == spec_clip(r_x as int, r_y as int, r_w as int, r_h as int, sw as int, sh as int),
{
    let x1 = if r_x > 0 { r_x } else { 0 };
    let y1 = if r_y > 0 { r_y } else { 0 };
    let x2 = if r_x + r_w < sw as i64 { r_x + r_w } else { sw as i64 };
    let y2 = if r_y + r_h < sh as i64 { r_y + r_h } else { sh as i64 };
    if x1 < x2 && y1 < y2 {
        Some(Rect::new(x1 as i32, y1 as i32, (x2 - x1) as u32, (y2 - y1) as u32))
    } else {
        None
    }
}

/// The sum of the first `n` widths.
pub open spec fn prefix_width(ws: Seq<u32>, n: int) -> int
    decreases n,
{
    if n <= 0 {
        0
    } else {
        prefix_width(ws, n - 1) + ws[n - 1]
    }
}

/// Where the colour picker's parts go.
#[derive(Debug, Clone)]
pub struct ColorPickerLayout {
    /// The square showing the colour.
    pub swatch: Rect,
    /// The square's border on the screen: its top, bottom, left and right lines, each cut to
    /// the screen, `None` where none of it is on it.
    pub border_top: Option<Rect>,
    pub border_bottom: Option<Rect>,
    pub border_left: Option<Rect>,
    pub border_right: Option<Rect>,
    /// The left edge of each digit in the order they are drawn, from the last digit (7) to the
    /// first (0), with its style.
    pub digits: Vec<(i32, DigitStyle)>,
    /// The left edge of the `#`, drawn plain, or on a background while editing.
    pub hash_x: i32,
    pub hash_focused: bool,
}

/// Where the digits start: left of the square by a margin.
pub open spec fn digits_start(point: Point, size: u32, margin_y: i32) -> int {
    point.x - size - margin_y
}

/// The arithmetic of the colour picker's layout stays within its integer types, for the
/// widths `ws` of the digits in the order they are drawn and the width `hash_w` of the `#`.
pub open spec fn color_picker_fits(
    point: Point,
    size: u32,
    margin_y: i32,
    ws: Seq<u32>,
    hash_w: u32,
) -> bool {
    &&& ws.len() == 8
    &&& size <= i32::MAX
    &&& i32::MIN <= point.x - size
    &&& point.y + size <= i32::MAX
    &&& i32::MIN <= digits_start(point, size, margin_y) <= i32::MAX
    &&& i32::MIN <= digits_start(point, size, margin_y) - prefix_width(ws, 8) - 8 - hash_w
}

/// The layout of the colour picker anchored at `point` with its font `size` high, a
/// vertical margin `margin_y`, on a screen `screen.0` by `screen.1`; `edit` is the digit being
/// edited, if any.
pub open spec fn is_color_picker_layout(
    point: Point,
    size: u32,
    margin_y: i32,
    screen: (u32, u32),
    ws: Seq<u32>,
    hash_w: u32,
    edit: Option<usize>,
    l: ColorPickerLayout,
) -> bool {
    let sx = point.x - size;
    let start = digits_start(point, size, margin_y);
    &&& l.swatch == Rect { x: sx as i32, y: point.y, w: size, h: size }
    &&& l.border_top == spec_clip(sx, point.y as int, size as int, 1, screen.0 as int, screen.1 as int)
    &&& l.border_bottom == spec_clip(
        sx,
        point.y + size - 1,
        size as int,
        1,
        screen.0 as int,
        screen.1 as int,
    )
    &&& l.border_left == spec_clip(sx, point.y as int, 1, size as int, screen.0 as int, screen.1 as int)
    &&& l.border_right == spec_clip(
        point.x - 1,
        point.y as int,
        1,
        size as int,
        screen.0 as int,
        screen.1 as int,
    )
    &&& l.digits@.len() == 8
    &&& forall|k: int|
        0 <= k < 8 ==> #[trigger] l.digits@[k] == (
            (start - prefix_width(ws, k + 1) - k) as i32,
            spec_digit_style(edit, 7 - k),
        )
    &&& l.hash_x == start - prefix_width(ws, 8) - 8 - hash_w
    &&& l.hash_focused == edit is Some
}

/// Lays the colour picker out, right-aligned at `point`; `widths` are those of the digits in
/// the order they are drawn (the last digit first) and `hash_w` that of the `#`.
pub fn color_picker_layout(
    point: Point,
    size: u32,
    margin_y: i32,
    screen: (u32, u32),
    widths: &Vec<u32>,
    hash_w: u32,
    edit: Option<usize>,
) -> (l: ColorPickerLayout)
    requires
        color_picker_fits(point, size, margin_y, widths@, hash_w),
    ensures
        is_color_picker_layout(point, size, margin_y, screen, widths@, hash_w, edit, l),
{
    let sx = point.x as i64 - size as i64;
    let swatch = Rect::new(sx as i32, point.y, size, size);
    let y = point.y as i64;
    let s = size as i64;
    let border_top = clip(sx, y, s, 1, screen.0, screen.1);
    let border_bottom = clip(sx, y + s - 1, s, 1, screen.0, screen.1);
    let border_left = clip(sx, y, 1, s, screen.0, screen.1);
    let border_right = clip(point.x as i64 - 1, y, 1, s, screen.0, screen.1);
    let start: i64 = point.x as i64 - size as i64 - margin_y as i64;
    let mut x: i64 = start;
    let mut digits: Vec<(i32, DigitStyle)> = Vec::new();
    let mut k: usize = 0;
    while k < 8
        invariant
            widths@.len() == 8,
            color_picker_fits(point, size, margin_y, widths@, hash_w),
            start == digits_start(point, size, margin_y),
            k <= 8,
            x == start - prefix_width(widths@, k as int) - k,
            digits@.len() == k,
            forall|j: int|
                0 <= j < k ==> #[trigger] digits@[j] == (
                    (start - prefix_width(widths@, j + 1) - j) as i32,
                    spec_digit_style(edit, 7 - j),
                ),
        decreases 8 - k,
    {
        proof {
            lemma_prefix_width_grows(widths@, k as int + 1, 8);
        }
        let pos = x - widths[k] as i64;
        let digit: usize = 7 - k;
        let style = match edit {
            Some(e) => if e == digit {
                DigitStyle::Selected
            } else {
                DigitStyle::Focused
            },
            None => DigitStyle::Plain,
        };
        digits.push((pos as i32, style));
        x = pos - 1;
        k = k + 1;
    }
    proof {
        lemma_prefix_width_nonneg(widths@, 8);
    }
    let hash_x = (x - hash_w as i64) as i32;
    ColorPickerLayout {
        swatch,
        border_top,
        border_bottom,
        border_left,
        border_right,
        digits,
        hash_x,
        hash_focused: edit.is_some(),
    }
}

/// Whether the arithmetic of the colour picker's layout stays within its integer types.
pub fn fits_color_picker(point: Point, size: u32, margin_y: i32, widths: &Vec<u32>, hash_w: u32) -> (b: bool)
    ensures
        b == color_picker_fits(point, size, margin_y, widths@, hash_w),
{
    if widths.len() != 8 || size > i32::MAX as u32 {
        return false;
    }
    let start = point.x as i64 - size as i64 - margin_y as i64;
    if point.x as i64 - (size as i64) < i32::MIN as i64 || point.y as i64 + size as i64
        > i32::MAX as i64 || start < i32::MIN as i64 || start > i32::MAX as i64 {
        return false;
    }
    let mut total: i64 = 0;
    let mut k: usize = 0;
    while k < 8
        invariant
            widths@.len() == 8,
            k <= 8,
            total == prefix_width(widths@, k as int),
            0 <= total <= k * 0x1_0000_0000,
        decreases 8 - k,
    {
        total = total + widths[k] as i64;
        k = k + 1;
    }
    start - total - 8 - hash_w as i64 >= i32::MIN as i64
}

/// Widths add up: a longer prefix is no narrower.
proof fn lemma_prefix_width_grows(ws: Seq<u32>, m: int, n: int)
    requires
        0 <= m <= n <= ws.len(),
    ensures
        0 <= prefix_width(ws, m) <= prefix_width(ws, n),
    decreases n - m,
{
    if m < n {
        lemma_prefix_width_grows(ws, m, n - 1);
    } else {
        lemma_prefix_width_nonneg(ws, m);
    }
}

proof fn lemma_prefix_width_nonneg(ws: Seq<u32>, n: int)
    requires
        0 <= n <= ws.len(),
    ensures
        0 <= prefix_width(ws, n),
    decreases n,
{
    if n > 0 {
        lemma_prefix_width_nonneg(ws, n - 1);
    }
}

} // verus!
