//! An input that picks one of a list of named options.

use vstd::prelude::*;
use vstd::string::*;
use std::collections::VecDeque;
use crate::command::{Command, Value};
use crate::geom::{Alignment, Point};
use crate::input::{Key, KeyEvent};
use crate::selection::{step_back, step_forward, wrap_back, wrap_forward};

verus! {

/// An input that picks one of a list of named options, shown as the name of the option.
/// Activating it starts choosing; Up/Left and Down/Right step through the options with
/// wrap-around, A keeps the option chosen and B goes back to the one before.
#[derive(Debug, Clone)]
pub struct Select {
    point: Point,
    value: usize,
    values: Vec<String>,
    alignment: Alignment,
    /// The text shown.
    label: String,
    edit_state: Option<usize>,
}

impl Select {
    pub closed spec fn spec_point(&self) -> Point {
        self.point
    }

    pub closed spec fn spec_value(&self) -> int {
        self.value as int
    }

    pub closed spec fn spec_values(&self) -> Seq<Seq<char>> {
        self.values@.map_values(|s: String| s@)
    }

    pub closed spec fn spec_alignment(&self) -> Alignment {
        self.alignment
    }

    pub closed spec fn spec_label(&self) -> Seq<char> {
        self.label@
    }

    pub closed spec fn spec_edit_state(&self) -> Option<int> {
        match self.edit_state {
            Some(i) => Some(i as int),
            None => None,
        }
    }

    /// The options and the text shown are those of `other`.
    pub open spec fn same_options(&self, other: &Self) -> bool {
        &&& self.spec_point() == other.spec_point()
        &&& self.spec_values() == other.spec_values()
        &&& self.spec_alignment() == other.spec_alignment()
    }

    /// A select showing option `value`, or nothing if there is no such option.
    pub fn new(point: Point, value: usize, values: Vec<String>, alignment: Alignment) -> (s: Self)
        ensures
            s.spec_point() == point,
            s.spec_value() == value,
            s.spec_values() == values@.map_values(|v: String| v@),
            s.spec_alignment() == alignment,
            s.spec_label() == if value < values.len() {
                values@[value as int]@
            } else {
                Seq::<char>::empty()
            },
            s.spec_edit_state() is None,
    {
        let label = if value < values.len() {
            values[value].clone()
        } else {
            String::new()
        };
        Self { point, value, values, alignment, label, edit_state: None }
    }

    /// The name of the option chosen.
    pub fn value(&self) -> (v: &str)
        requires
            0 <= self.spec_value() < self.spec_values().len(),
        ensures
            v@ == self.spec_values()[self.spec_value()],
    {
        self.values[self.value].as_str()
    }

    /// The text shown.
    pub fn label(&self) -> (l: &str)
        ensures
            l@ == self.spec_label(),
    {
        self.label.as_str()
    }

    /// Chooses option `selected` and shows its name.
    pub fn set_value(&mut self, selected: usize)
        requires
            selected < old(self).spec_values().len(),
        ensures
            final(self).same_options(&*old(self)),
            final(self).spec_value() == selected,
            final(self).spec_label() == old(self).spec_values()[selected as int],
            final(self).spec_edit_state() == old(self).spec_edit_state(),
    {
        self.value = selected;
        self.label = self.values[selected].clone();
    }

    pub fn set_position(&mut self, point: Point)
        ensures
            final(self).spec_point() == point,
            final(self).spec_values() == old(self).spec_values(),
            final(self).spec_alignment() == old(self).spec_alignment(),
            final(self).spec_value() == old(self).spec_value(),
            final(self).spec_label() == old(self).spec_label(),
            final(self).spec_edit_state() == old(self).spec_edit_state(),
    {
        self.point = point;
    }

    /// Handles a button press. Not choosing, any event starts choosing from the option chosen
    /// and asks for the focus to stay. Choosing, Up or Left shows the option before, Down or
    /// Right the one after (wrapping around), A keeps the option shown and reports its index
    /// as the value of input 0, B goes back to the option chosen before; both give up the
    /// focus. Returns whether the event was handled.
    pub fn handle_key_event(&mut self, event: KeyEvent, bubble: &mut VecDeque<Command>) -> (handled: bool)
        requires
            old(self).spec_edit_state() is Some && (event.spec_pushes(Key::Up) || event.spec_pushes(
                Key::Left,
            ) || event.spec_pushes(Key::Down) || event.spec_pushes(Key::Right))
                ==> old(self).spec_values().len() > 0,
            old(self).spec_edit_state() is Some && event == KeyEvent::Pressed(Key::B) ==> 0
                <= old(self).spec_value() < old(self).spec_values().len(),
        ensures
            final(self).same_options(&*old(self)),
            final(bubble)@.subrange(0, old(bubble)@.len() as int) == old(bubble)@,
            match old(self).spec_edit_state() {
                None => {
                    &&& handled
                    &&& final(self).spec_edit_state() == Some(old(self).spec_value())
                    &&& final(self).spec_value() == old(self).spec_value()
                    &&& final(self).spec_label() == old(self).spec_label()
                    &&& final(bubble)@.len() == old(bubble)@.len() + 1
                    &&& final(bubble)@.last() is TrapFocus
                },
                Some(e) => {
                    let n = old(self).spec_values().len() as int;
                    if event.spec_pushes(Key::Up) || event.spec_pushes(Key::Left) {
                        &&& handled
                        &&& final(self).spec_edit_state() == Some(step_back(e, n))
                        &&& final(self).spec_label() == old(self).spec_values()[step_back(e, n)]
                        &&& final(self).spec_value() == old(self).spec_value()
                        &&& final(bubble)@ == old(bubble)@
                    } else if event.spec_pushes(Key::Down) || event.spec_pushes(Key::Right) {
                        &&& handled
                        &&& final(self).spec_edit_state() == Some(step_forward(e, n))
                        &&& final(self).spec_label() == old(self).spec_values()[step_forward(e, n)]
                        &&& final(self).spec_value() == old(self).spec_value()
                        &&& final(bubble)@ == old(bubble)@
                    } else if event == KeyEvent::Pressed(Key::A) {
                        &&& handled
                        &&& final(self).spec_edit_state() is None
                        &&& final(self).spec_value() == e
                        &&& final(self).spec_label() == old(self).spec_label()
                        &&& final(bubble)@.len() == old(bubble)@.len() + 2
                        &&& final(bubble)@[old(bubble)@.len() as int] matches Command::ValueChanged(
                            0,
                            Value::Int(v),
                        ) && v == e as i32
                        &&& final(bubble)@.last() is Unfocus
                    } else if event == KeyEvent::Pressed(Key::B) {
                        &&& handled
                        &&& final(self).spec_edit_state() is None
                        &&& final(self).spec_value() == old(self).spec_value()
                        &&& final(self).spec_label() == old(self).spec_values()[old(
                            self,
                        ).spec_value()]
                        &&& final(bubble)@.len() == old(bubble)@.len() + 1
                        &&& final(bubble)@.last() is Unfocus
                    } else {
                        &&& !handled
                        &&& final(self).spec_edit_state() == old(self).spec_edit_state()
                        &&& final(self).spec_value() == old(self).spec_value()
                        &&& final(self).spec_label() == old(self).spec_label()
                        &&& final(bubble)@ == old(bubble)@
                    }
                },
            },
    {
        match self.edit_state {
            None => {
                self.edit_state = Some(self.value);
                bubble.push_back(Command::TrapFocus);
                true
            },
            Some(e) => {
                let n = self.values.len();
                if event.pushes(Key::Up) || event.pushes(Key::Left) {
                    let i = wrap_back(e, n);
                    self.edit_state = Some(i);
                    self.label = self.values[i].clone();
                    true
                } else if event.pushes(Key::Down) || event.pushes(Key::Right) {
                    let i = wrap_forward(e, n);
                    self.edit_state = Some(i);
                    self.label = self.values[i].clone();
                    true
                } else if event == KeyEvent::Pressed(Key::A) {
                    self.value = e;
                    self.edit_state = None;
                    bubble.push_back(Command::ValueChanged(0, Value::Int(e as i32)));
                    bubble.push_back(Command::Unfocus);
                    true
                } else if event == KeyEvent::Pressed(Key::B) {
                    self.edit_state = None;
                    self.label = self.values[self.value].clone();
                    bubble.push_back(Command::Unfocus);
                    true
                } else {
                    false
                }
            },
        }
    }
}

} // verus!
