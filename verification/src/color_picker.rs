//! An input for a colour, edited one hexadecimal digit at a time.

use vstd::prelude::*;
use std::collections::VecDeque;
use crate::color::{Channels, Color};
use crate::command::{Command, Value};
use crate::geom::{Alignment, Point};
use crate::input::{Key, KeyEvent};
use crate::stylesheet::StylesheetColor;

verus! {

/// `v` with its high hexadecimal digit stepped up or down, wrapping around.
pub open spec fn step_high_digit(v: u8, up: bool) -> u8 {
    if up {
        ((v + 16) % 256) as u8
    } else {
        ((v - 16) % 256) as u8
    }
}

/// `v` with its low hexadecimal digit stepped up or down, wrapping around within the digit.
pub open spec fn step_low_digit(v: u8, up: bool) -> u8 {
    if up {
        (v - v % 16 + (v % 16 + 1) % 16) as u8
    } else {
        (v - v % 16 + (v % 16 + 15) % 16) as u8
    }
}

/// Digit `d` of `v` stepped: even digits are high digits, odd digits low ones.
pub open spec fn step_digit(v: u8, d: int, up: bool) -> u8 {
    if d % 2 == 0 {
        step_high_digit(v, up)
    } else {
        step_low_digit(v, up)
    }
}

/// A colour with digit `d` (0 and 1 for red, 2 and 3 for green, 4 and 5 for blue, 6 and 7
/// for alpha, the high digit first) stepped up or down.
pub open spec fn step_color_digit(c: Channels, d: int, up: bool) -> Channels {
    if d / 2 == 0 {
        (step_digit(c.0, d, up), c.1, c.2, c.3)
    } else if d / 2 == 1 {
        (c.0, step_digit(c.1, d, up), c.2, c.3)
    } else if d / 2 == 2 {
        (c.0, c.1, step_digit(c.2, d, up), c.3)
    } else {
        (c.0, c.1, c.2, step_digit(c.3, d, up))
    }
}

fn step_high(v: u8, up: bool) -> (r: u8)
    ensures
        r == step_high_digit(v, up),
{
    if up {
        ((v as u32 + 16) % 256) as u8
    } else {
        ((v as u32 + 240) % 256) as u8
    }
}

fn step_low(v: u8, up: bool) -> (r: u8)
    ensures
        r == step_low_digit(v, up),
{
    let low = v % 16;
    if up {
        v - low + (low + 1) % 16
    } else {
        v - low + (low + 15) % 16
    }
}

fn step_channel(v: u8, digit: usize, up: bool) -> (r: u8)
    ensures
        r == step_digit(v, digit as int, up),
{
    if digit % 2 == 0 {
        step_high(v, up)
    } else {
        step_low(v, up)
    }
}

/// The colour being edited and the digit under the cursor.
#[derive(Debug, Clone, Copy)]
pub struct EditState {
    pub selected: usize,
    pub value: Color,
}

/// An input for a colour, shown as a swatch and its hexadecimal digits. Activating it starts
/// editing a copy of the colour; A keeps the copy and B drops it.
#[derive(Debug, Clone)]
pub struct ColorPicker {
    point: Point,
    value: Color,
    alignment: Alignment,
    dirty: bool,
    edit_state: Option<EditState>,
    background_color: StylesheetColor,
    text_color: StylesheetColor,
}

impl ColorPicker {
    pub closed spec fn spec_point(&self) -> Point {
        self.point
    }

    pub closed spec fn spec_value(&self) -> Color {
        self.value
    }

    pub closed spec fn spec_alignment(&self) -> Alignment {
        self.alignment
    }

    pub closed spec fn spec_dirty(&self) -> bool {
        self.dirty
    }

    pub closed spec fn spec_edit_state(&self) -> Option<EditState> {
        self.edit_state
    }

    pub closed spec fn spec_background_color(&self) -> StylesheetColor {
        self.background_color
    }

    pub closed spec fn spec_text_color(&self) -> StylesheetColor {
        self.text_color
    }

    /// While editing, the cursor is on one of the eight digits.
    pub open spec fn wf(&self) -> bool {
        self.spec_edit_state() matches Some(s) ==> s.selected < 8
    }

    pub fn new(point: Point, value: Color, alignment: Alignment) -> (p: Self)
        ensures
            p.wf(),
            p.spec_point() == point,
            p.spec_value() == value,
            p.spec_alignment() == alignment,
            p.spec_dirty(),
            p.spec_edit_state() is None,
            p.spec_background_color() == StylesheetColor::Background,
            p.spec_text_color() == StylesheetColor::Foreground,
    {
        Self {
            point,
            value,
            alignment,
            dirty: true,
            edit_state: None,
            background_color: StylesheetColor::Background,
            text_color: StylesheetColor::Foreground,
        }
    }

    pub fn set_value(&mut self, value: Color)
        ensures
            final(self).spec_value() == value,
            final(self).spec_dirty(),
            final(self).spec_point() == old(self).spec_point(),
            final(self).spec_alignment() == old(self).spec_alignment(),
            final(self).spec_edit_state() == old(self).spec_edit_state(),
            final(self).spec_background_color() == old(self).spec_background_color(),
            final(self).spec_text_color() == old(self).spec_text_color(),
    {
        self.value = value;
        self.dirty = true;
    }

    pub fn value(&self) -> (c: Color)
        ensures
            c == self.spec_value(),
    {
        self.value
    }

    /// The colour shown: the copy being edited, or the value.
    pub fn shown_color(&self) -> (c: Color)
        ensures
            c == (match self.spec_edit_state() {
                Some(s) => s.value,
                None => self.spec_value(),
            }),
    {
        match self.edit_state {
            Some(s) => s.value,
            None => self.value,
        }
    }

    /// The digit under the cursor while editing.
    pub fn edit_index(&self) -> (i: Option<usize>)
        ensures
            i == (match self.spec_edit_state() {
                Some(s) => Some(s.selected),
                None => None,
            }),
    {
        match self.edit_state {
            Some(s) => Some(s.selected),
            None => None,
        }
    }

    pub fn text_color(&self) -> (c: StylesheetColor)
        ensures
            c == self.spec_text_color(),
    {
        self.text_color
    }

    pub fn should_draw(&self) -> (d: bool)
        ensures
            d == self.spec_dirty(),
    {
        self.dirty
    }

    pub fn set_position(&mut self, point: Point)
        ensures
            final(self).spec_point() == point,
            final(self).spec_value() == old(self).spec_value(),
            final(self).spec_alignment() == old(self).spec_alignment(),
            final(self).spec_dirty() == old(self).spec_dirty(),
            final(self).spec_edit_state() == old(self).spec_edit_state(),
            final(self).spec_background_color() == old(self).spec_background_color(),
            final(self).spec_text_color() == old(self).spec_text_color(),
    {
        self.point = point;
    }

    /// Shows the digits in the highlighted text colour.
    pub fn focus(&mut self)
        ensures
            final(self).spec_text_color() == StylesheetColor::HighlightText,
            final(self).spec_dirty(),
            final(self).spec_point() == old(self).spec_point(),
            final(self).spec_value() == old(self).spec_value(),
            final(self).spec_alignment() == old(self).spec_alignment(),
            final(self).spec_edit_state() == old(self).spec_edit_state(),
            final(self).spec_background_color() == old(self).spec_background_color(),
    {
        self.text_color = StylesheetColor::HighlightText;
        self.dirty = true;
    }

    /// Shows the digits in the ordinary text colour.
    pub fn blur(&mut self)
        ensures
            final(self).spec_text_color() == StylesheetColor::Foreground,
            final(self).spec_dirty(),
            final(self).spec_point() == old(self).spec_point(),
            final(self).spec_value() == old(self).spec_value(),
            final(self).spec_alignment() == old(self).spec_alignment(),
            final(self).spec_edit_state() == old(self).spec_edit_state(),
            final(self).spec_background_color() == old(self).spec_background_color(),
    {
        self.text_color = StylesheetColor::Foreground;
        self.dirty = true;
    }

    /// Handles a button press. Not editing, any event starts editing a copy of the colour with
    /// the cursor on the first digit, and asks for the focus to stay. Editing, Up and Down
    /// step the digit under the cursor, Left and Right move the cursor (stopping at either
    /// end), A keeps the copy and reports it as the value of input 0, B drops it; both give
    /// up the focus. Returns whether the event was handled.
    pub fn handle_key_event(&mut self, event: KeyEvent, bubble: &mut VecDeque<Command>) -> (handled: bool)
        requires
            old(self).wf(),
        ensures
            final(self).wf(),
            final(self).spec_point() == old(self).spec_point(),
            final(self).spec_alignment() == old(self).spec_alignment(),
            final(self).spec_background_color() == old(self).spec_background_color(),
            final(self).spec_text_color() == old(self).spec_text_color(),
            final(bubble)@.subrange(0, old(bubble)@.len() as int) == old(bubble)@,
            match old(self).spec_edit_state() {
                None => {
                    &&& handled
                    &&& final(self).spec_edit_state() == Some(
                        EditState { selected: 0, value: old(self).spec_value() },
                    )
                    &&& final(self).spec_value() == old(self).spec_value()
                    &&& final(self).spec_dirty() == old(self).spec_dirty()
                    &&& final(bubble)@.len() == old(bubble)@.len() + 1
                    &&& final(bubble)@.last() is TrapFocus
                },
                Some(s) => {
                    if event.spec_pushes(Key::Up) || event.spec_pushes(Key::Down) {
                        &&& handled
                        &&& final(self).spec_edit_state() matches Some(t) && t.selected
                            == s.selected && t.value@ == step_color_digit(
                            s.value@,
                            s.selected as int,
                            event.spec_pushes(Key::Up),
                        )
                        &&& final(self).spec_value() == old(self).spec_value()
                        &&& final(self).spec_dirty()
                        &&& final(bubble)@ == old(bubble)@
                    } else if event.spec_pushes(Key::Left) || event.spec_pushes(Key::Right) {
                        &&& handled
                        &&& final(self).spec_edit_state() == Some(
                            EditState {
                                selected: if event.spec_pushes(Key::Left) {
                                    if s.selected == 0 {
                                        0
                                    } else {
                                        (s.selected - 1) as usize
                                    }
                                } else {
                                    if s.selected == 7 {
                                        7
                                    } else {
                                        (s.selected + 1) as usize
                                    }
                                },
                                value: s.value,
                            },
                        )
                        &&& final(self).spec_value() == old(self).spec_value()
                        &&& final(self).spec_dirty()
                        &&& final(bubble)@ == old(bubble)@
                    } else if event == KeyEvent::Pressed(Key::A) {
                        &&& handled
                        &&& final(self).spec_edit_state() is None
                        &&& final(self).spec_value() == s.value
                        &&& final(self).spec_dirty()
                        &&& final(bubble)@.len() == old(bubble)@.len() + 2
                        &&& final(bubble)@[old(bubble)@.len() as int] matches Command::ValueChanged(
                            0,
                            Value::Color(c),
                        ) && c == s.value
                        &&& final(bubble)@.last() is Unfocus
                    } else if event == KeyEvent::Pressed(Key::B) {
                        &&& handled
                        &&& final(self).spec_edit_state() is None
                        &&& final(self).spec_value() == old(self).spec_value()
                        &&& final(self).spec_dirty() == old(self).spec_dirty()
                        &&& final(bubble)@.len() == old(bubble)@.len() + 1
                        &&& final(bubble)@.last() is Unfocus
                    } else {
                        &&& !handled
                        &&& *final(self) == *old(self)
                        &&& final(bubble)@ == old(bubble)@
                    }
                },
            },
    {
        match self.edit_state {
            None => {
                self.edit_state = Some(EditState { value: self.value, selected: 0 });
                bubble.push_back(Command::TrapFocus);
                true
            },
            Some(state) => {
                if event.pushes(Key::Up) || event.pushes(Key::Down) {
                    let up = event.pushes(Key::Up);
                    let d = state.selected;
                    let c = state.value;
                    let value = if d / 2 == 0 {
                        c.with_r(step_channel(c.r(), d, up))
                    } else if d / 2 == 1 {
                        c.with_g(step_channel(c.g(), d, up))
                    } else if d / 2 == 2 {
                        c.with_b(step_channel(c.b(), d, up))
                    } else {
                        c.with_a(step_channel(c.a(), d, up))
                    };
                    self.edit_state = Some(EditState { selected: d, value });
                    self.dirty = true;
                    true
                } else if event.pushes(Key::Left) || event.pushes(Key::Right) {
                    let selected = if event.pushes(Key::Left) {
                        if state.selected == 0 {
                            0
                        } else {
                            state.selected - 1
                        }
                    } else {
                        if state.selected == 7 {
                            7
                        } else {
                            state.selected + 1
                        }
                    };
                    self.edit_state = Some(EditState { selected, value: state.value });
                    self.dirty = true;
                    true
                } else if event == KeyEvent::Pressed(Key::A) {
                    self.value = state.value;
                    self.dirty = true;
                    self.edit_state = None;
                    bubble.push_back(Command::ValueChanged(0, Value::Color(self.value)));
                    bubble.push_back(Command::Unfocus);
                    true
                } else if event == KeyEvent::Pressed(Key::B) {
                    self.edit_state = None;
                    bubble.push_back(Command::Unfocus);
                    true
                } else {
                    false
                }
            },
        }
    }
}

/// Stepping a digit up and then down, or down and then up, gives the colour back.
pub proof fn lemma_step_digit_roundtrip(c: Channels, d: int)
    requires
        0 <= d < 8,
    ensures
        step_color_digit(step_color_digit(c, d, true), d, false) == c,
        step_color_digit(step_color_digit(c, d, false), d, true) == c,
{
    lemma_digit_roundtrip(c.0);
    lemma_digit_roundtrip(c.1);
    lemma_digit_roundtrip(c.2);
    lemma_digit_roundtrip(c.3);
}

/// Stepping a digit of a channel one way and back leaves it as it was.
proof fn lemma_digit_roundtrip(v: u8)
    ensures
        step_high_digit(step_high_digit(v, true), false) == v,
        step_high_digit(step_high_digit(v, false), true) == v,
        step_low_digit(step_low_digit(v, true), false) == v,
        step_low_digit(step_low_digit(v, false), true) == v,
{
    assert(((((v + 16) % 256) as u8 - 16) % 256) as u8 == v) by (bit_vector);
    assert(((((v - 16) % 256) as u8 + 16) % 256) as u8 == v) by (bit_vector);
    let u = step_low_digit(v, true);
    let w = step_low_digit(v, false);
    assert(u % 16 == (v % 16 + 1) % 16 && u - u % 16 == v - v % 16);
    assert(w % 16 == (v % 16 + 15) % 16 && w - w % 16 == v - v % 16);
}

} // verus!
