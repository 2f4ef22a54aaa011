//! The icon of a button in button hints: an image of the theme or a shape with the button's
//! name, anchored by alignment.

use vstd::prelude::*;
use crate::geom::{Alignment, Point, Rect};
use crate::input::Key;

verus! {

/// The label drawn on a button's shape: its name, or nothing for the direction buttons.
pub open spec fn spec_button_text(button: Key) -> Seq<char> {
    match button {
        Key::A => "A"@,
        Key::B => "B"@,
        Key::X => "X"@,
        Key::Y => "Y"@,
        Key::Up | Key::Down | Key::Left | Key::Right => Seq::<char>::empty(),
        Key::Start => "START"@,
        Key::Select => "SELECT"@,
        Key::L => "L"@,
        Key::R => "R"@,
        Key::Menu => "MENU"@,
        Key::L2 => "L2"@,
        Key::R2 => "R2"@,
        Key::Power => "POWER"@,
        Key::VolDown => "VOL-"@,
        Key::VolUp => "VOL+"@,
        Key::Unknown => Seq::<char>::empty(),
    }
}

/// The label drawn on a button's shape; there is none for an unknown button.
pub fn button_text(button: Key) -> (s: &'static str)
    requires
        button != Key::Unknown,
    ensures
        s@ == spec_button_text(button),
{
    match button {
        Key::A => "A",
        Key::B => "B",
        Key::X => "X",
        Key::Y => "Y",
        Key::Up => {
            proof {
                reveal_strlit("");
            }
            ""
        },
        Key::Down => {
            proof {
                reveal_strlit("");
            }
            ""
        },
        Key::Left => {
            proof {
                reveal_strlit("");
            }
            ""
        },
        Key::Right => {
            proof {
                reveal_strlit("");
            }
            ""
        },
        Key::Start => "START",
        Key::Select => "SELECT",
        Key::L => "L",
        Key::R => "R",
        Key::Menu => "MENU",
        Key::L2 => "L2",
        Key::R2 => "R2",
        Key::Power => "POWER",
        Key::VolDown => "VOL-",
        _ => "VOL+",
    }
}

/// The icon of a button, anchored at its left edge, middle or right edge as aligned.
#[derive(Debug, Clone)]
pub struct ButtonIcon {
    point: Point,
    button: Key,
    alignment: Alignment,
    dirty: bool,
}

impl ButtonIcon {
    pub closed spec fn spec_point(&self) -> Point {
        self.point
    }

    pub closed spec fn spec_button(&self) -> Key {
        self.button
    }

    pub closed spec fn spec_alignment(&self) -> Alignment {
        self.alignment
    }

    pub closed spec fn spec_dirty(&self) -> bool {
        self.dirty
    }

    pub fn new(point: Point, button: Key, alignment: Alignment) -> (b: Self)
        ensures
            b.spec_point() == point,
            b.spec_button() == button,
            b.spec_alignment() == alignment,
            b.spec_dirty(),
    {
        Self { point, button, alignment, dirty: true }
    }

    pub fn button(&self) -> (k: Key)
        ensures
            k == self.spec_button(),
    {
        self.button
    }

    pub fn should_draw(&self) -> (d: bool)
        ensures
            d == self.spec_dirty(),
    {
        self.dirty
    }

    pub fn set_position(&mut self, point: Point)
        ensures
            final(self).spec_point() == point,
            final(self).spec_dirty(),
            final(self).spec_button() == old(self).spec_button(),
            final(self).spec_alignment() == old(self).spec_alignment(),
    {
        self.point = point;
        self.dirty = true;
    }

    /// The area of an icon `w` by `h`: its left edge is the anchor, or half the width or the
    /// whole width left of it, as aligned.
    pub fn bounding_box(&self, w: u32, h: u32) -> (r: Rect)
        requires
            w <= i32::MAX,
            i32::MIN <= self.spec_point().x - w,
        ensures
            r.x == match self.spec_alignment() {
                Alignment::Left => self.spec_point().x as int,
                Alignment::Center => self.spec_point().x - w / 2,
                Alignment::Right => self.spec_point().x - w,
            },
            r.y == self.spec_point().y,
            r.w == w,
            r.h == h,
    {
        let wi = w as i32;
        let x = match self.alignment {
            Alignment::Left => self.point.x,
            Alignment::Center => self.point.x - wi / 2,
            Alignment::Right => self.point.x - wi,
        };
        Rect::new(x, self.point.y, w, h)
    }
}

/// The theme's image file for a button's icon; an unknown button has none.
pub fn icon_file_name(button: Key) -> (f: Option<&'static str>)
    ensures
        f is Some <==> button != Key::Unknown,
        f matches Some(name) ==> name@ == seq!['b', 'u', 't', 't', 'o', 'n', '-'] + spec_file_stem(
            button,
        ) + seq!['.', 'p', 'n', 'g'],
{
    let name = match button {
        Key::A => "button-a.png",
        Key::B => "button-b.png",
        Key::X => "button-x.png",
        Key::Y => "button-y.png",
        Key::Up => "button-up.png",
        Key::Down => "button-down.png",
        Key::Left => "button-left.png",
        Key::Right => "button-right.png",
        Key::Start => "button-start.png",
        Key::Select => "button-select.png",
        Key::L => "button-l.png",
        Key::R => "button-r.png",
        Key::L2 => "button-l2.png",
        Key::R2 => "button-r2.png",
        Key::Menu => "button-menu.png",
        Key::Power => "button-power.png",
        Key::VolDown => "button-voldown.png",
        Key::VolUp => "button-volup.png",
        Key::Unknown => {
            return None;
        },
    };
    proof {
        reveal_strlit("button-a.png");
        reveal_strlit("button-b.png");
        reveal_strlit("button-x.png");
        reveal_strlit("button-y.png");
        reveal_strlit("button-up.png");
        reveal_strlit("button-down.png");
        reveal_strlit("button-left.png");
        reveal_strlit("button-right.png");
        reveal_strlit("button-start.png");
        reveal_strlit("button-select.png");
        reveal_strlit("button-l.png");
        reveal_strlit("button-r.png");
        reveal_strlit("button-l2.png");
        reveal_strlit("button-r2.png");
        reveal_strlit("button-menu.png");
        reveal_strlit("button-power.png");
        reveal_strlit("button-voldown.png");
        reveal_strlit("button-volup.png");
        assert(name@ == seq!['b', 'u', 't', 't', 'o', 'n', '-'] + spec_file_stem(button) + seq![
            '.',
            'p',
            'n',
            'g',
        ]);
    }
    Some(name)
}

/// The part of a button's icon file name that names the button.
pub open spec fn spec_file_stem(button: Key) -> Seq<char> {
    match button {
        Key::A => seq!['a'],
        Key::B => seq!['b'],
        Key::X => seq!['x'],
        Key::Y => seq!['y'],
        Key::Up => seq!['u', 'p'],
        Key::Down => seq!['d', 'o', 'w', 'n'],
        Key::Left => seq!['l', 'e', 'f', 't'],
        Key::Right => seq!['r', 'i', 'g', 'h', 't'],
        Key::Start => seq!['s', 't', 'a', 'r', 't'],
        Key::Select => seq!['s', 'e', 'l', 'e', 'c', 't'],
        Key::L => seq!['l'],
        Key::R => seq!['r'],
        Key::L2 => seq!['l', '2'],
        Key::R2 => seq!['r', '2'],
        Key::Menu => seq!['m', 'e', 'n', 'u'],
        Key::Power => seq!['p', 'o', 'w', 'e', 'r'],
        Key::VolDown => seq!['v', 'o', 'l', 'd', 'o', 'w', 'n'],
        Key::VolUp => seq!['v', 'o', 'l', 'u', 'p'],
        Key::Unknown => Seq::<char>::empty(),
    }
}

/// The colour a drawn button takes: its own for the face buttons, the buttons' background
/// colour for the rest.
#[derive(Debug, Clone, Copy, PartialEq, Eq, Structural)]
pub enum ButtonFace {
    A,
    B,
    X,
    Y,
    Plain,
}

/// The colour a drawn button takes.
pub open spec fn spec_button_face(button: Key) -> ButtonFace {
    match button {
        Key::A => ButtonFace::A,
        Key::B => ButtonFace::B,
        Key::X => ButtonFace::X,
        Key::Y => ButtonFace::Y,
        _ => ButtonFace::Plain,
    }
}

/// The colour a drawn button takes.
pub fn button_face(button: Key) -> (f: ButtonFace)
    ensures
        f == spec_button_face(button),
{
    match button {
        Key::A => ButtonFace::A,
        Key::B => ButtonFace::B,
        Key::X => ButtonFace::X,
        Key::Y => ButtonFace::Y,
        _ => ButtonFace::Plain,
    }
}

/// Whether a drawn button is as wide as the button diameter: the face buttons, the shoulder
/// buttons and the directions; the others are as wide as their name.
pub open spec fn spec_fixed_width(button: Key) -> bool {
    match button {
        Key::A | Key::B | Key::X | Key::Y | Key::L | Key::L2 | Key::R | Key::R2 | Key::Up
        | Key::Right | Key::Down | Key::Left => true,
        _ => false,
    }
}

/// The size of a drawn button whose name measures `text_w` across: the diameter, or the name
/// and 8 pixels, wide; the diameter and 4 pixels high.
pub fn vector_size(button: Key, diameter: u32, text_w: u32) -> (s: (u32, u32))
    requires
        diameter <= u32::MAX - 4,
        text_w <= u32::MAX - 8,
    ensures
        s == (if spec_fixed_width(button) {
            diameter
        } else {
            (text_w + 8) as u32
        }, (diameter + 4) as u32),
{
    let w = match button {
        Key::A | Key::B | Key::X | Key::Y | Key::L | Key::L2 | Key::R | Key::R2 | Key::Up
        | Key::Right | Key::Down | Key::Left => diameter,
        _ => text_w + 8,
    };
    (w, diameter + 4)
}

/// A shape of a drawn button: a disc, or a rectangle with rounded corners; `indicator` marks
/// the arrow of a direction, drawn in the text colour rather than the button's.
#[derive(Debug, Clone, Copy, PartialEq, Eq, Structural)]
pub enum ButtonShape {
    Circle { center: Point, radius: u32 },
    RoundedRect { rect: Rect, radius: u32, indicator: bool },
}

/// The arrow of a direction button of diameter `d` at `(x, y)`: a bar pointing up, right,
/// down or left from the middle.
pub open spec fn spec_arrow(button: Key, x: int, y: int, d: int) -> Rect {
    match button {
        Key::Up => Rect {
            x: (x + d * 5 / 14 + 1) as i32,
            y: (y + d / 14) as i32,
            w: (d * 2 / 7) as u32,
            h: (d * 3 / 7) as u32,
        },
        Key::Right => Rect {
            x: (x + d * 7 / 14 + 1) as i32,
            y: (y + d * 5 / 14 + 1) as i32,
            w: (d * 3 / 7) as u32,
            h: (d * 2 / 7) as u32,
        },
        Key::Down => Rect {
            x: (x + d * 5 / 14 + 1) as i32,
            y: (y + d * 7 / 14 + 1) as i32,
            w: (d * 2 / 7) as u32,
            h: (d * 3 / 7) as u32,
        },
        _ => Rect {
            x: (x + d / 14) as i32,
            y: (y + d * 5 / 14 + 1) as i32,
            w: (d * 3 / 7) as u32,
            h: (d * 2 / 7) as u32,
        },
    }
}

/// Half of `a`, rounded toward zero.
pub open spec fn half_toward_zero(a: int) -> int {
    if a >= 0 {
        a / 2
    } else {
        -((-a) / 2)
    }
}

/// The shapes of a drawn button of diameter `d` whose top-left corner is `point`, its name
/// measuring `text_w` by `text_h` in a font of size `font_size`: a disc for the face buttons;
/// a cross of two bars and an arrow for the directions; a rounded bar for the shoulder
/// buttons; a rounded box around the name for the others.
pub open spec fn spec_button_shapes(
    button: Key,
    point: Point,
    d: u32,
    font_size: u32,
    text_w: u32,
    text_h: u32,
) -> Seq<ButtonShape> {
    let x = point.x as int;
    let y = point.y as int;
    match button {
        Key::A | Key::B | Key::X | Key::Y => seq![
            ButtonShape::Circle {
                center: Point { x: (x + d / 2) as i32, y: (y + d / 2) as i32 },
                radius: d / 2,
            },
        ],
        Key::Up | Key::Right | Key::Down | Key::Left => seq![
            ButtonShape::RoundedRect {
                rect: Rect { x: x as i32, y: (y + d * 2 / 7 + 1) as i32, w: d, h: (d * 3 / 7) as u32 },
                radius: 4,
                indicator: false,
            },
            ButtonShape::RoundedRect {
                rect: Rect { x: (x + d * 2 / 7 + 1) as i32, y: y as i32, w: (d * 3 / 7) as u32, h: d },
                radius: 4,
                indicator: false,
            },
            ButtonShape::RoundedRect { rect: spec_arrow(button, x, y, d as int), radius: 4, indicator: true },
        ],
        Key::L | Key::L2 | Key::R | Key::R2 => seq![
            ButtonShape::RoundedRect {
                rect: Rect { x: x as i32, y: (y + d / 8) as i32, w: d, h: (d * 3 / 4) as u32 },
                radius: 8,
                indicator: false,
            },
        ],
        _ => seq![
            ButtonShape::RoundedRect {
                rect: Rect {
                    x: x as i32,
                    y: (y + half_toward_zero(d - font_size) - 2) as i32,
                    w: (text_w + 8) as u32,
                    h: (text_h + 4) as u32,
                },
                radius: 8,
                indicator: false,
            },
        ],
    }
}

/// Where the name of a drawn button goes: centred on the button for the fixed-width buttons,
/// 4 pixels in from the left for the others, and nowhere for the directions, which have none.
pub open spec fn spec_text_position(
    button: Key,
    point: Point,
    d: u32,
    font_size: u32,
    text_w: u32,
) -> Option<Point> {
    let ty = (point.y + half_toward_zero(d - font_size)) as i32;
    if button is Up || button is Down || button is Left || button is Right {
        None
    } else if spec_fixed_width(button) {
        Some(Point { x: (point.x + d / 2 - text_w / 2) as i32, y: ty })
    } else {
        Some(Point { x: (point.x + 4) as i32, y: ty })
    }
}

/// The arithmetic of drawing a button stays within the integer types.
pub open spec fn vector_button_fits(
    point: Point,
    d: u32,
    font_size: u32,
    text_w: u32,
    text_h: u32,
) -> bool {
    &&& d <= i32::MAX / 7
    &&& font_size <= i32::MAX
    &&& text_w <= i32::MAX - 8
    &&& text_h <= u32::MAX - 4
    &&& point.x + d + 4 <= i32::MAX
    &&& point.y + d + 4 <= i32::MAX
    &&& i32::MIN <= point.y - font_size / 2 - 2
    &&& i32::MIN <= point.x - text_w / 2
}

/// The shapes of a drawn button and where its name goes.
pub fn vector_button(
    button: Key,
    point: Point,
    d: u32,
    font_size: u32,
    text_w: u32,
    text_h: u32,
) -> (r: (Vec<ButtonShape>, Option<Point>))
    requires
        button != Key::Unknown,
        vector_button_fits(point, d, font_size, text_w, text_h),
    ensures
        r.0@ == spec_button_shapes(button, point, d, font_size, text_w, text_h),
        r.1 == spec_text_position(button, point, d, font_size, text_w),
{
    let di = d as i32;
    let fi = font_size as i32;
    let mut shapes: Vec<ButtonShape> = Vec::new();
    let mut centred = true;
    match button {
        Key::A | Key::B | Key::X | Key::Y => {
            shapes.push(
                ButtonShape::Circle {
                    center: Point::new(point.x + di / 2, point.y + di / 2),
                    radius: d / 2,
                },
            );
        },
        Key::Up | Key::Right | Key::Down | Key::Left => {
            shapes.push(
                ButtonShape::RoundedRect {
                    rect: Rect::new(point.x, point.y + di * 2 / 7 + 1, d, d * 3 / 7),
                    radius: 4,
                    indicator: false,
                },
            );
            shapes.push(
                ButtonShape::RoundedRect {
                    rect: Rect::new(point.x + di * 2 / 7 + 1, point.y, d * 3 / 7, d),
                    radius: 4,
                    indicator: false,
                },
            );
            let arrow = match button {
                Key::Up => Rect::new(
                    point.x + di * 5 / 14 + 1,
                    point.y + di / 14,
                    d * 2 / 7,
                    d * 3 / 7,
                ),
                Key::Right => Rect::new(
                    point.x + di * 7 / 14 + 1,
                    point.y + di * 5 / 14 + 1,
                    d * 3 / 7,
                    d * 2 / 7,
                ),
                Key::Down => Rect::new(
                    point.x + di * 5 / 14 + 1,
                    point.y + di * 7 / 14 + 1,
                    d * 2 / 7,
                    d * 3 / 7,
                ),
                _ => Rect::new(point.x + di / 14, point.y + di * 5 / 14 + 1, d * 3 / 7, d * 2 / 7),
            };
            shapes.push(ButtonShape::RoundedRect { rect: arrow, radius: 4, indicator: true });
        },
        Key::L | Key::L2 | Key::R | Key::R2 => {
            shapes.push(
                ButtonShape::RoundedRect {
                    rect: Rect::new(point.x, point.y + di / 8, d, d * 3 / 4),
                    radius: 8,
                    indicator: false,
                },
            );
        },
        _ => {
            centred = false;
            shapes.push(
                ButtonShape::RoundedRect {
                    rect: Rect::new(point.x, point.y + (di - fi) / 2 - 2, text_w + 8, text_h + 4),
                    radius: 8,
                    indicator: false,
                },
            );
        },
    }
    let ty = point.y + (di - fi) / 2;
    let pos = if matches!(button, Key::Up | Key::Down | Key::Left | Key::Right) {
        None
    } else if centred {
        Some(Point::new(point.x + di / 2 - text_w as i32 / 2, ty))
    } else {
        Some(Point::new(point.x + 4, ty))
    };
    proof {
        assert(shapes@ =~= spec_button_shapes(button, point, d, font_size, text_w, text_h));
    }
    (shapes, pos)
}

} // verus!
