//! An on/off switch.

use vstd::prelude::*;
use std::collections::VecDeque;
use crate::command::{Command, Value};
use crate::geom::{Alignment, Point, Rect};
use crate::input::{Key, KeyEvent};
use crate::stylesheet::Stylesheet;

verus! {

/// The width of a toggle whose height is `h`: one and a half times as wide as high.
pub open spec fn toggle_width(h: u32) -> int {
    h * 3 / 2
}

/// The left edge of a toggle of width `w` anchored at `x` with the given alignment: the
/// anchor is its left edge, middle or right edge.
pub open spec fn toggle_left(x: int, w: int, alignment: Alignment) -> int {
    x - w * (1 - alignment.spec_sign()) / 2
}

/// The arithmetic of a toggle's geometry stays within `i32`.
pub open spec fn toggle_fits(point: Point, h: u32) -> bool {
    &&& h * 3 <= u32::MAX
    &&& toggle_width(h) * 2 <= i32::MAX
    &&& i32::MIN <= point.x - toggle_width(h)
    &&& point.x + toggle_width(h) <= i32::MAX
    &&& point.y + h <= i32::MAX
}

/// How far left of its anchor a toggle of width `w` starts, as aligned.
fn anchor_offset(w: u32, alignment: Alignment) -> (o: i32)
    requires
        w * 2 <= i32::MAX,
    ensures
        o == w * (1 - alignment.spec_sign()) / 2,
        0 <= o <= w,
{
    match alignment {
        Alignment::Left => {
            assert(w * (1 - alignment.spec_sign()) == 0) by (nonlinear_arith)
                requires
                    alignment.spec_sign() == 1,
            ;
            0
        },
        Alignment::Center => {
            assert(w * (1 - alignment.spec_sign()) == w) by (nonlinear_arith)
                requires
                    alignment.spec_sign() == 0,
            ;
            (w / 2) as i32
        },
        Alignment::Right => {
            assert(w * (1 - alignment.spec_sign()) == 2 * w) by (nonlinear_arith)
                requires
                    alignment.spec_sign() == -1,
            ;
            w as i32
        },
    }
}

/// An on/off switch, drawn as a rounded bar with a knob at the right end when on and at the
/// left end when off.
#[derive(Debug, Clone)]
pub struct Toggle {
    point: Point,
    value: bool,
    alignment: Alignment,
    dirty: bool,
}

impl Toggle {
    pub closed spec fn spec_point(&self) -> Point {
        self.point
    }

    pub closed spec fn spec_value(&self) -> bool {
        self.value
    }

    pub closed spec fn spec_alignment(&self) -> Alignment {
        self.alignment
    }

    pub closed spec fn spec_dirty(&self) -> bool {
        self.dirty
    }

    pub fn new(point: Point, value: bool, alignment: Alignment) -> (t: Self)
        ensures
            t.spec_point() == point,
            t.spec_value() == value,
            t.spec_alignment() == alignment,
            t.spec_dirty(),
    {
        Self { point, value, alignment, dirty: true }
    }

    pub fn value(&self) -> (v: bool)
        ensures
            v == self.spec_value(),
    {
        self.value
    }

    pub fn set_value(&mut self, value: bool)
        ensures
            final(self).spec_value() == value,
            final(self).spec_dirty(),
            final(self).spec_point() == old(self).spec_point(),
            final(self).spec_alignment() == old(self).spec_alignment(),
    {
        self.value = value;
        self.dirty = true;
    }

    pub fn should_draw(&self) -> (d: bool)
        ensures
            d == self.spec_dirty(),
    {
        self.dirty
    }

    pub fn set_position(&mut self, point: Point)
        ensures
            final(self).spec_point() == point,
            final(self).spec_dirty(),
            final(self).spec_value() == old(self).spec_value(),
            final(self).spec_alignment() == old(self).spec_alignment(),
    {
        self.point = point;
        self.dirty = true;
    }

    /// A press of A flips the switch and reports the new value as the value of input 0.
    /// Returns whether the event was handled.
    pub fn handle_key_event(&mut self, event: KeyEvent, bubble: &mut VecDeque<Command>) -> (handled: bool)
        ensures
            handled == (event == KeyEvent::Pressed(Key::A)),
            handled ==> {
                &&& final(self).spec_value() == !old(self).spec_value()
                &&& final(self).spec_dirty()
                &&& final(bubble)@.len() == old(bubble)@.len() + 1
                &&& final(bubble)@.subrange(0, old(bubble)@.len() as int) == old(bubble)@
                &&& final(bubble)@.last() matches Command::ValueChanged(0, Value::Bool(v))
                    && v == final(self).spec_value()
            },
            !handled ==> *final(self) == *old(self) && final(bubble)@ == old(bubble)@,
            final(self).spec_point() == old(self).spec_point(),
            final(self).spec_alignment() == old(self).spec_alignment(),
    {
        if event == KeyEvent::Pressed(Key::A) {
            self.value = !self.value;
            self.dirty = true;
            bubble.push_back(Command::ValueChanged(0, Value::Bool(self.value)));
            true
        } else {
            false
        }
    }

    /// The bar: as high as the interface font, one and a half times as wide, anchored at the
    /// toggle's point as aligned.
    pub fn bounding_box(&self, styles: &Stylesheet) -> (r: Rect)
        requires
            toggle_fits(self.spec_point(), styles.ui_font.size),
        ensures
            r.x == toggle_left(
                self.spec_point().x as int,
                toggle_width(styles.ui_font.size),
                self.spec_alignment(),
            ),
            r.y == self.spec_point().y,
            r.w == toggle_width(styles.ui_font.size),
            r.h == styles.ui_font.size,
    {
        let h = styles.ui_font.size;
        let w = h * 3 / 2;
        Rect::new(self.point.x - anchor_offset(w, self.alignment), self.point.y, w, h)
    }

    /// The knob, as its centre and radius: inset by a sixth of the height from the top and
    /// from the left end when off or the right end when on.
    pub fn knob(&self, styles: &Stylesheet) -> (k: (Point, u32))
        requires
            toggle_fits(self.spec_point(), styles.ui_font.size),
        ensures
            ({
                let h = styles.ui_font.size as int;
                let w = toggle_width(styles.ui_font.size);
                let margin = h / 6;
                let diameter = h - 2 * margin;
                let left = toggle_left(self.spec_point().x as int, w, self.spec_alignment());
                let x = if self.spec_value() {
                    left + w - h + margin
                } else {
                    left + margin
                };
                &&& k.0.x == x + diameter / 2
                &&& k.0.y == self.spec_point().y + margin + diameter / 2
                &&& k.1 == diameter / 2
            }),
    {
        let h = styles.ui_font.size;
        let w = h * 3 / 2;
        let margin = (h / 6) as i32;
        let left = self.point.x - anchor_offset(w, self.alignment);
        let x = if self.value {
            left + w as i32 - h as i32 + margin
        } else {
            left + margin
        };
        let y = self.point.y + margin;
        let diameter = h - margin as u32 - margin as u32;
        (Point::new(x + diameter as i32 / 2, y + diameter as i32 / 2), diameter / 2)
    }
}

} // verus!
