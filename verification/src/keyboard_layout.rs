//! Where the on-screen keyboard is drawn: a panel above the button hints, a grid of square
//! keys centred across the screen, the space bar below them, the highlighted key, and the line
//! of text typed so far above the keys.

use vstd::prelude::*;
use crate::geom::Rect;

verus! {

/// The number of keys in the grid, the space bar left out.
pub const GRID_KEYS: usize = 44;

/// Division rounding toward zero, as `i32` division does.
pub open spec fn trunc_div(a: int, b: int) -> int {
    if a >= 0 {
        a / b
    } else {
        -((-a) / b)
    }
}

/// The top-left corner of the keyboard's grid on a display `dw` by `dh`, for keys `ks`
/// wide, buttons `diameter` wide and a vertical margin `my`: centred across the display, and
/// above the button hints by two margins.
pub open spec fn grid_origin(dw: int, dh: int, ks: int, diameter: int, my: int) -> (int, int) {
    (trunc_div(dw - 11 * ks, 2), dh - 5 * ks - diameter - 2 * my)
}

/// The arithmetic of the keyboard's layout stays within its integer types.
pub open spec fn keyboard_fits(dw: u32, dh: u32, ks: u32, diameter: u32, my: i32) -> bool {
    let (x0, y0) = grid_origin(dw as int, dh as int, ks as int, diameter as int, my as int);
    &&& 16 <= dw <= i32::MAX
    &&& dh <= i32::MAX
    &&& diameter <= i32::MAX
    &&& 110 * ks <= i32::MAX
    &&& i32::MIN <= dh - 5 * ks - diameter
    &&& i32::MIN <= dh - 5 * ks - diameter - my <= i32::MAX
    &&& i32::MIN <= y0 <= i32::MAX
    &&& i32::MIN <= y0 - ks
    &&& i32::MIN <= y0 - my <= i32::MAX
    &&& i32::MIN <= y0 - ks - my <= i32::MAX
    &&& y0 + 4 * ks <= i32::MAX
    &&& x0 + 11 * ks <= i32::MAX
}

/// Where the parts of the keyboard go.
#[derive(Debug, Clone, PartialEq, Eq)]
pub struct KeyboardLayout {
    /// The panel behind the keyboard, with corners of radius 8.
    pub background: Rect,
    /// The keys of the grid, row by row from the top left.
    pub keys: Vec<Rect>,
    /// The space bar, as wide as the grid.
    pub space: Rect,
    /// The key drawn highlighted and in the highlight's text style, if the cursor is on the
    /// grid.
    pub selected_key: Option<usize>,
    /// The area drawn in the highlight colour, with corners of radius 12: the key or the space
    /// bar the cursor is on.
    pub highlight: Rect,
    /// The top of the line of text typed so far, which is centred across the display.
    pub value_y: i32,
}

/// Key `i` of the grid, counted row by row from the top left.
pub open spec fn spec_key_rect(dw: u32, dh: u32, ks: u32, diameter: u32, my: i32, i: int) -> Rect {
    let (x0, y0) = grid_origin(dw as int, dh as int, ks as int, diameter as int, my as int);
    Rect {
        x: (x0 + (i % 11) * ks) as i32,
        y: (y0 + (i / 11) * ks) as i32,
        w: ks,
        h: ks,
    }
}

/// The space bar.
pub open spec fn spec_space_rect(dw: u32, dh: u32, ks: u32, diameter: u32, my: i32) -> Rect {
    let (x0, y0) = grid_origin(dw as int, dh as int, ks as int, diameter as int, my as int);
    Rect { x: x0 as i32, y: (y0 + 4 * ks) as i32, w: (11 * ks) as u32, h: ks }
}

/// The panel behind the keyboard: from 8 pixels in on either side, a line of text and a margin
/// above the grid, down to 8 pixels below the space bar.
pub open spec fn spec_background_rect(dw: u32, dh: u32, ks: u32, diameter: u32, my: i32) -> Rect {
    let (x0, y0) = grid_origin(dw as int, dh as int, ks as int, diameter as int, my as int);
    Rect { x: 8, y: (y0 - ks - my) as i32, w: (dw - 16) as u32, h: (5 * ks + ks + 8) as u32 }
}

/// The keyboard's layout with the cursor at column `cursor.0` of row `cursor.1`.
pub open spec fn spec_keyboard_layout_of(
    dw: u32,
    dh: u32,
    ks: u32,
    diameter: u32,
    my: i32,
    cursor: (usize, usize),
    layout: KeyboardLayout,
) -> bool {
    let (x0, y0) = grid_origin(dw as int, dh as int, ks as int, diameter as int, my as int);
    &&& layout.background == spec_background_rect(dw, dh, ks, diameter, my)
    &&& layout.keys@.len() == GRID_KEYS
    &&& forall|i: int| 0 <= i < GRID_KEYS ==> #[trigger] layout.keys@[i] == spec_key_rect(
        dw,
        dh,
        ks,
        diameter,
        my,
        i,
    )
    &&& layout.space == spec_space_rect(dw, dh, ks, diameter, my)
    &&& layout.selected_key == if cursor.1 < 4 {
        Some((cursor.0 + cursor.1 * 11) as usize)
    } else {
        None
    }
    &&& layout.highlight == if cursor.1 < 4 {
        spec_key_rect(dw, dh, ks, diameter, my, cursor.0 + cursor.1 * 11)
    } else {
        spec_space_rect(dw, dh, ks, diameter, my)
    }
    &&& layout.value_y == y0 - my - ks
}

/// Whether the arithmetic of the keyboard's layout stays within its integer types.
pub fn fits_keyboard(dw: u32, dh: u32, ks: u32, diameter: u32, my: i32) -> (b: bool)
    ensures
        b == keyboard_fits(dw, dh, ks, diameter, my),
{
    if dw < 16 || dw > i32::MAX as u32 || dh > i32::MAX as u32 || diameter > i32::MAX as u32
        || ks > i32::MAX as u32 / 110 {
        return false;
    }
    let w = 11 * ks as i64;
    let d = dw as i64 - w;
    let x0: i64 = if d >= 0 {
        d / 2
    } else {
        -((-d) / 2)
    };
    let a = dh as i64 - 5 * ks as i64 - diameter as i64;
    let b = a - my as i64;
    let y0 = b - my as i64;
    let min = i32::MIN as i64;
    let max = i32::MAX as i64;
    let m = my as i64;
    let top = y0 - ks as i64 - m;
    min <= a && min <= b && b <= max && min <= y0 && y0 <= max && min <= y0 - ks as i64 && min
        <= y0 - m && y0 - m <= max && min <= top && top <= max && y0 + 4 * ks as i64 <= max && x0
        + w <= max
}

/// Lays the keyboard out on a display `dw` by `dh` with keys `ks` wide (the interface's font
/// size), buttons `diameter` wide and a vertical margin `my`, with the cursor at column
/// `cursor.0` of row `cursor.1`.
pub fn keyboard_layout(
    dw: u32,
    dh: u32,
    ks: u32,
    diameter: u32,
    my: i32,
    cursor: (usize, usize),
) -> (layout: KeyboardLayout)
    requires
        keyboard_fits(dw, dh, ks, diameter, my),
        cursor.0 < 11,
        cursor.1 < 5,
    ensures
        spec_keyboard_layout_of(dw, dh, ks, diameter, my, cursor, layout),
{
    let k = ks as i32;
    let w = k * 11;
    let h = k * 5;
    let x0 = (dw as i32 - w) / 2;
    let y0 = dh as i32 - h - diameter as i32 - my - my;
    proof {
        assert(x0 == trunc_div(dw - 11 * ks, 2));
    }
    let background = Rect::new(8, y0 - k - my, dw - 16, h as u32 + ks + 8);
    let mut keys: Vec<Rect> = Vec::new();
    let mut i: usize = 0;
    while i < GRID_KEYS
        invariant
            keyboard_fits(dw, dh, ks, diameter, my),
            k == ks,
            x0 == grid_origin(dw as int, dh as int, ks as int, diameter as int, my as int).0,
            y0 == grid_origin(dw as int, dh as int, ks as int, diameter as int, my as int).1,
            i <= GRID_KEYS,
            keys@.len() == i,
            forall|j: int| 0 <= j < i ==> #[trigger] keys@[j] == spec_key_rect(
                dw,
                dh,
                ks,
                diameter,
                my,
                j,
            ),
        decreases GRID_KEYS - i,
    {
        let col = (i % 11) as i32;
        let row = (i / 11) as i32;
        assert(col * k <= 10 * ks && row * k <= 3 * ks) by (nonlinear_arith)
            requires
                0 <= col <= 10,
                0 <= row <= 3,
                k == ks,
                0 <= ks,
        ;
        assert(0 <= col * k && 0 <= row * k) by (nonlinear_arith)
            requires
                0 <= col,
                0 <= row,
                0 <= k,
        ;
        keys.push(Rect::new(x0 + col * k, y0 + row * k, ks, ks));
        i = i + 1;
    }
    let space = Rect::new(x0, y0 + 4 * k, w as u32, ks);
    let (selected_key, highlight) = if cursor.1 < 4 {
        let index = cursor.0 + cursor.1 * 11;
        (Some(index), keys[index])
    } else {
        (None, space)
    };
    KeyboardLayout { background, keys, space, selected_key, highlight, value_y: y0 - my - k }
}

/// The area the keyboard covers on a display `dw` by `dh`, for keys `ks` wide, buttons
/// `diameter` wide and a horizontal margin `mx`: the whole width, from a line of text and a
/// margin above the grid down to the bottom of the display.
pub open spec fn spec_keyboard_box(dw: u32, dh: u32, ks: u32, diameter: u32, mx: i32) -> Rect {
    let y = dh - (5 * ks + 8) - diameter - 2 * mx;
    Rect { x: 0, y: (y - ks - mx) as i32, w: dw, h: (dh - y) as u32 }
}

/// The arithmetic of the keyboard's area stays within its integer types.
pub open spec fn keyboard_box_fits(dh: u32, ks: u32, diameter: u32, mx: i32) -> bool {
    let y = dh - (5 * ks + 8) - diameter - 2 * mx;
    &&& dh <= i32::MAX
    &&& diameter <= i32::MAX
    &&& 5 * ks + 8 <= i32::MAX
    &&& i32::MIN <= dh - (5 * ks + 8) - diameter
    &&& i32::MIN <= dh - (5 * ks + 8) - diameter - mx <= i32::MAX
    &&& 0 <= y <= dh
    &&& i32::MIN <= y - ks
    &&& i32::MIN <= y - ks - mx <= i32::MAX
}

/// The area the keyboard covers.
pub fn keyboard_box(dw: u32, dh: u32, ks: u32, diameter: u32, mx: i32) -> (r: Rect)
    requires
        keyboard_box_fits(dh, ks, diameter, mx),
    ensures
        r == spec_keyboard_box(dw, dh, ks, diameter, mx),
{
    let h = ks as i32 * 5 + 8;
    let y = dh as i32 - h - diameter as i32 - mx - mx;
    Rect::new(0, y - ks as i32 - mx, dw, dh - y as u32)
}

} // verus!
