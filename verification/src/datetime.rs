//! An input for a date and time, edited one field at a time with chrono's calendar
//! arithmetic.

use vstd::prelude::*;
use std::collections::VecDeque;
use chrono::NaiveDateTime;
use crate::command::{Command, Value};
use crate::geom::{Alignment, Point};
use crate::input::{Key, KeyEvent};
use crate::stylesheet::StylesheetColor;
use crate::stylesheet::texts;
use crate::screenshot_viewer::{format_time, formatted_time};
use crate::color_picker_layout::{prefix_width, spec_digit_style, DigitStyle};
use vstd::string::*;

verus! {

/// What `NaiveDateTime::checked_add_months` gives for `months` months after `dt`.
pub uninterp spec fn chrono_add_months(dt: NaiveDateTime, months: u32) -> Option<NaiveDateTime>;

/// What `NaiveDateTime::checked_sub_months` gives for `months` months before `dt`.
pub uninterp spec fn chrono_sub_months(dt: NaiveDateTime, months: u32) -> Option<NaiveDateTime>;

/// What `NaiveDateTime::checked_add_days` gives for `days` days after `dt`.
pub uninterp spec fn chrono_add_days(dt: NaiveDateTime, days: u64) -> Option<NaiveDateTime>;

/// What `NaiveDateTime::checked_sub_days` gives for `days` days before `dt`.
pub uninterp spec fn chrono_sub_days(dt: NaiveDateTime, days: u64) -> Option<NaiveDateTime>;

/// What `NaiveDateTime::checked_add_signed` gives for `seconds` seconds after `dt`.
pub uninterp spec fn chrono_add_seconds(dt: NaiveDateTime, seconds: i64) -> Option<NaiveDateTime>;

/// What `NaiveDateTime::checked_sub_signed` gives for `seconds` seconds before `dt`.
pub uninterp spec fn chrono_sub_seconds(dt: NaiveDateTime, seconds: i64) -> Option<NaiveDateTime>;

/// `dt` moved `months` months later (`NaiveDateTime::checked_add_months`); `None` out of
/// chrono's range.
#[verifier::external_body]
fn add_months(dt: NaiveDateTime, months: u32) -> (r: Option<NaiveDateTime>)
    ensures
        r == chrono_add_months(dt, months),
{
    dt.checked_add_months(chrono::Months::new(months))
}

/// `dt` moved `months` months earlier (`NaiveDateTime::checked_sub_months`); `None` out of
/// chrono's range.
#[verifier::external_body]
fn sub_months(dt: NaiveDateTime, months: u32) -> (r: Option<NaiveDateTime>)
    ensures
        r == chrono_sub_months(dt, months),
{
    dt.checked_sub_months(chrono::Months::new(months))
}

/// `dt` moved `days` days later (`NaiveDateTime::checked_add_days`); `None` out of chrono's
/// range.
#[verifier::external_body]
fn add_days(dt: NaiveDateTime, days: u64) -> (r: Option<NaiveDateTime>)
    ensures
        r == chrono_add_days(dt, days),
{
    dt.checked_add_days(chrono::Days::new(days))
}

/// `dt` moved `days` days earlier (`NaiveDateTime::checked_sub_days`); `None` out of chrono's
/// range.
#[verifier::external_body]
fn sub_days(dt: NaiveDateTime, days: u64) -> (r: Option<NaiveDateTime>)
    ensures
        r == chrono_sub_days(dt, days),
{
    dt.checked_sub_days(chrono::Days::new(days))
}

/// `dt` moved `seconds` seconds later (`NaiveDateTime::checked_add_signed` with
/// `TimeDelta::seconds`, which panics beyond a thousandth of the `i64` range); `None` out of
/// chrono's range.
#[verifier::external_body]
fn add_seconds(dt: NaiveDateTime, seconds: i64) -> (r: Option<NaiveDateTime>)
    requires
        -(i64::MAX / 1000) <= seconds <= i64::MAX / 1000,
    ensures
        r == chrono_add_seconds(dt, seconds),
{
    dt.checked_add_signed(chrono::TimeDelta::seconds(seconds))
}

/// `dt` moved `seconds` seconds earlier (`NaiveDateTime::checked_sub_signed` with
/// `TimeDelta::seconds`, which panics beyond a thousandth of the `i64` range); `None` out of
/// chrono's range.
#[verifier::external_body]
fn sub_seconds(dt: NaiveDateTime, seconds: i64) -> (r: Option<NaiveDateTime>)
    requires
        -(i64::MAX / 1000) <= seconds <= i64::MAX / 1000,
    ensures
        r == chrono_sub_seconds(dt, seconds),
{
    dt.checked_sub_signed(chrono::TimeDelta::seconds(seconds))
}

/// The fields of the text `YYYY-MM-DD hh:mm:ss`, numbered from 0: the year is 0, the month
/// 2, the day 4, the hour 6, the minute 8 and the second 10; the odd ones are separators.
pub open spec fn is_value_field(f: int) -> bool {
    f == 0 || f == 2 || f == 4 || f == 6 || f == 8 || f == 10
}

/// `v` or, where chrono gives no result, `dt`.
pub open spec fn or_keep(v: Option<NaiveDateTime>, dt: NaiveDateTime) -> NaiveDateTime {
    match v {
        Some(d) => d,
        None => dt,
    }
}

/// `dt` with field `f` stepped up or down by one (a year is twelve months); a step chrono
/// cannot take leaves `dt` as it is.
pub open spec fn step_field(dt: NaiveDateTime, f: int, up: bool) -> NaiveDateTime {
    if up {
        if f == 0 {
            or_keep(chrono_add_months(dt, 12), dt)
        } else if f == 2 {
            or_keep(chrono_add_months(dt, 1), dt)
        } else if f == 4 {
            or_keep(chrono_add_days(dt, 1), dt)
        } else if f == 6 {
            or_keep(chrono_add_seconds(dt, 3600), dt)
        } else if f == 8 {
            or_keep(chrono_add_seconds(dt, 60), dt)
        } else {
            or_keep(chrono_add_seconds(dt, 1), dt)
        }
    } else {
        if f == 0 {
            or_keep(chrono_sub_months(dt, 12), dt)
        } else if f == 2 {
            or_keep(chrono_sub_months(dt, 1), dt)
        } else if f == 4 {
            or_keep(chrono_sub_days(dt, 1), dt)
        } else if f == 6 {
            or_keep(chrono_sub_seconds(dt, 3600), dt)
        } else if f == 8 {
            or_keep(chrono_sub_seconds(dt, 60), dt)
        } else {
            or_keep(chrono_sub_seconds(dt, 1), dt)
        }
    }
}

/// The field the cursor moves to from `f`, one step left or right past the separators,
/// stopping at the year and at the second.
pub open spec fn move_field(f: int, left: bool) -> int {
    if left {
        if f <= 1 {
            0
        } else {
            f - 2
        }
    } else {
        if f >= 9 {
            10
        } else {
            f + 2
        }
    }
}

/// The date and time being edited and the field under the cursor.
#[derive(Debug, Clone, Copy)]
pub struct EditState {
    pub selected: usize,
    pub value: NaiveDateTime,
}

/// An input for a date and time. Activating it starts editing a copy with the cursor on the
/// hour; A keeps the copy and B drops it.
#[derive(Debug, Clone)]
pub struct DateTime {
    point: Point,
    value: NaiveDateTime,
    alignment: Alignment,
    dirty: bool,
    edit_state: Option<EditState>,
    text_color: StylesheetColor,
}

impl DateTime {
    pub closed spec fn spec_point(&self) -> Point {
        self.point
    }

    pub closed spec fn spec_value(&self) -> NaiveDateTime {
        self.value
    }

    pub closed spec fn spec_alignment(&self) -> Alignment {
        self.alignment
    }

    pub closed spec fn spec_dirty(&self) -> bool {
        self.dirty
    }

    pub closed spec fn spec_edit_state(&self) -> Option<EditState> {
        self.edit_state
    }

    pub closed spec fn spec_text_color(&self) -> StylesheetColor {
        self.text_color
    }

    /// While editing, the cursor is on a field that holds a value.
    pub open spec fn wf(&self) -> bool {
        self.spec_edit_state() matches Some(s) ==> is_value_field(s.selected as int)
    }

    pub fn new(point: Point, value: NaiveDateTime, alignment: Alignment) -> (d: Self)
        ensures
            d.wf(),
            d.spec_point() == point,
            d.spec_value() == value,
            d.spec_alignment() == alignment,
            d.spec_dirty(),
            d.spec_edit_state() is None,
            d.spec_text_color() == StylesheetColor::Foreground,
    {
        Self {
            point,
            value,
            alignment,
            dirty: true,
            edit_state: None,
            text_color: StylesheetColor::Foreground,
        }
    }

    pub fn set_value(&mut self, value: NaiveDateTime)
        ensures
            final(self).spec_value() == value,
            final(self).spec_dirty(),
            final(self).spec_point() == old(self).spec_point(),
            final(self).spec_alignment() == old(self).spec_alignment(),
            final(self).spec_edit_state() == old(self).spec_edit_state(),
            final(self).spec_text_color() == old(self).spec_text_color(),
    {
        self.value = value;
        self.dirty = true;
    }

    pub fn value(&self) -> (v: NaiveDateTime)
        ensures
            v == self.spec_value(),
    {
        self.value
    }

    /// The date and time shown: the copy being edited, or the value.
    pub fn shown_value(&self) -> (v: NaiveDateTime)
        ensures
            v == (match self.spec_edit_state() {
                Some(s) => s.value,
                None => self.spec_value(),
            }),
    {
        match self.edit_state {
            Some(s) => s.value,
            None => self.value,
        }
    }

    /// The field under the cursor while editing.
    pub fn edit_index(&self) -> (i: Option<usize>)
        ensures
            i == (match self.spec_edit_state() {
                Some(s) => Some(s.selected),
                None => None,
            }),
    {
        match self.edit_state {
            Some(s) => Some(s.selected),
            None => None,
        }
    }

    pub fn text_color(&self) -> (c: StylesheetColor)
        ensures
            c == self.spec_text_color(),
    {
        self.text_color
    }

    pub fn should_draw(&self) -> (d: bool)
        ensures
            d == self.spec_dirty(),
    {
        self.dirty
    }

    pub fn set_should_draw(&mut self)
        ensures
            final(self).spec_dirty(),
            final(self).spec_point() == old(self).spec_point(),
            final(self).spec_value() == old(self).spec_value(),
            final(self).spec_alignment() == old(self).spec_alignment(),
            final(self).spec_edit_state() == old(self).spec_edit_state(),
            final(self).spec_text_color() == old(self).spec_text_color(),
    {
        self.dirty = true;
    }

    /// Marks the input drawn.
    pub fn mark_drawn(&mut self)
        ensures
            !final(self).spec_dirty(),
            final(self).spec_point() == old(self).spec_point(),
            final(self).spec_value() == old(self).spec_value(),
            final(self).spec_alignment() == old(self).spec_alignment(),
            final(self).spec_edit_state() == old(self).spec_edit_state(),
            final(self).spec_text_color() == old(self).spec_text_color(),
    {
        self.dirty = false;
    }

    pub fn set_position(&mut self, point: Point)
        ensures
            final(self).spec_point() == point,
            final(self).spec_value() == old(self).spec_value(),
            final(self).spec_alignment() == old(self).spec_alignment(),
            final(self).spec_dirty() == old(self).spec_dirty(),
            final(self).spec_edit_state() == old(self).spec_edit_state(),
            final(self).spec_text_color() == old(self).spec_text_color(),
    {
        self.point = point;
    }

    /// Shows the text in the highlighted colour.
    pub fn focus(&mut self)
        ensures
            final(self).spec_text_color() == StylesheetColor::HighlightText,
            final(self).spec_dirty(),
            final(self).spec_point() == old(self).spec_point(),
            final(self).spec_value() == old(self).spec_value(),
            final(self).spec_alignment() == old(self).spec_alignment(),
            final(self).spec_edit_state() == old(self).spec_edit_state(),
    {
        self.text_color = StylesheetColor::HighlightText;
        self.dirty = true;
    }

    /// Shows the text in the ordinary colour.
    pub fn blur(&mut self)
        ensures
            final(self).spec_text_color() == StylesheetColor::Foreground,
            final(self).spec_dirty(),
            final(self).spec_point() == old(self).spec_point(),
            final(self).spec_value() == old(self).spec_value(),
            final(self).spec_alignment() == old(self).spec_alignment(),
            final(self).spec_edit_state() == old(self).spec_edit_state(),
    {
        self.text_color = StylesheetColor::Foreground;
        self.dirty = true;
    }

    /// Handles a button press. Not editing, any event starts editing a copy with the cursor on
    /// the hour and asks for the focus to stay. Editing, Up and Down step the field under the
    /// cursor, Left and Right move the cursor between fields (stopping at either end), A keeps
    /// the copy and reports it as the value of input 0, B drops it; both give up the focus.
    /// Returns whether the event was handled.
    pub fn handle_key_event(&mut self, event: KeyEvent, bubble: &mut VecDeque<Command>) -> (handled: bool)
        requires
            old(self).wf(),
        ensures
            final(self).wf(),
            final(self).spec_point() == old(self).spec_point(),
            final(self).spec_alignment() == old(self).spec_alignment(),
            final(self).spec_text_color() == old(self).spec_text_color(),
            final(bubble)@.subrange(0, old(bubble)@.len() as int) == old(bubble)@,
            match old(self).spec_edit_state() {
                None => {
                    &&& handled
                    &&& final(self).spec_edit_state() == Some(
                        EditState { selected: 6, value: old(self).spec_value() },
                    )
                    &&& final(self).spec_value() == old(self).spec_value()
                    &&& final(self).spec_dirty() == old(self).spec_dirty()
                    &&& final(bubble)@.len() == old(bubble)@.len() + 1
                    &&& final(bubble)@.last() is TrapFocus
                },
                Some(s) => {
                    if event.spec_pushes(Key::Up) || event.spec_pushes(Key::Down) {
                        &&& handled
                        &&& final(self).spec_edit_state() == Some(
                            EditState {
                                selected: s.selected,
                                value: step_field(
                                    s.value,
                                    s.selected as int,
                                    event.spec_pushes(Key::Up),
                                ),
                            },
                        )
                        &&& final(self).spec_value() == old(self).spec_value()
                        &&& final(self).spec_dirty()
                        &&& final(bubble)@ == old(bubble)@
                    } else if event.spec_pushes(Key::Left) || event.spec_pushes(Key::Right) {
                        &&& handled
                        &&& final(self).spec_edit_state() == Some(
                            EditState {
                                selected: move_field(
                                    s.selected as int,
                                    event.spec_pushes(Key::Left),
                                ) as usize,
                                value: s.value,
                            },
                        )
                        &&& final(self).spec_value() == old(self).spec_value()
                        &&& final(self).spec_dirty()
                        &&& final(bubble)@ == old(bubble)@
                    } else if event == KeyEvent::Pressed(Key::A) {
                        &&& handled
                        &&& final(self).spec_edit_state() is None
                        &&& final(self).spec_value() == s.value
                        &&& final(self).spec_dirty()
                        &&& final(bubble)@.len() == old(bubble)@.len() + 2
                        &&& final(bubble)@[old(bubble)@.len() as int] matches Command::ValueChanged(
                            0,
                            Value::DateTime(d),
                        ) && d == s.value
                        &&& final(bubble)@.last() is Unfocus
                    } else if event == KeyEvent::Pressed(Key::B) {
                        &&& handled
                        &&& final(self).spec_edit_state() is None
                        &&& final(self).spec_value() == old(self).spec_value()
                        &&& final(self).spec_dirty() == old(self).spec_dirty()
                        &&& final(bubble)@.len() == old(bubble)@.len() + 1
                        &&& final(bubble)@.last() is Unfocus
                    } else {
                        &&& !handled
                        &&& final(self).spec_edit_state() == old(self).spec_edit_state()
                        &&& final(self).spec_value() == old(self).spec_value()
                        &&& final(self).spec_dirty() == old(self).spec_dirty()
                        &&& final(bubble)@ == old(bubble)@
                    }
                },
            },
    {
        match self.edit_state {
            None => {
                self.edit_state = Some(EditState { value: self.value, selected: 6 });
                bubble.push_back(Command::TrapFocus);
                true
            },
            Some(state) => {
                if event.pushes(Key::Up) || event.pushes(Key::Down) {
                    let v = state.value;
                    let f = state.selected;
                    let stepped = if event.pushes(Key::Up) {
                        if f == 0 {
                            add_months(v, 12)
                        } else if f == 2 {
                            add_months(v, 1)
                        } else if f == 4 {
                            add_days(v, 1)
                        } else if f == 6 {
                            add_seconds(v, 3600)
                        } else if f == 8 {
                            add_seconds(v, 60)
                        } else {
                            add_seconds(v, 1)
                        }
                    } else {
                        if f == 0 {
                            sub_months(v, 12)
                        } else if f == 2 {
                            sub_months(v, 1)
                        } else if f == 4 {
                            sub_days(v, 1)
                        } else if f == 6 {
                            sub_seconds(v, 3600)
                        } else if f == 8 {
                            sub_seconds(v, 60)
                        } else {
                            sub_seconds(v, 1)
                        }
                    };
                    let value = match stepped {
                        Some(d) => d,
                        None => v,
                    };
                    self.edit_state = Some(EditState { selected: f, value });
                    self.dirty = true;
                    true
                } else if event.pushes(Key::Left) || event.pushes(Key::Right) {
                    let f = state.selected;
                    let selected = if event.pushes(Key::Left) {
                        if f <= 1 {
                            0
                        } else {
                            f - 2
                        }
                    } else {
                        if f >= 9 {
                            10
                        } else {
                            f + 2
                        }
                    };
                    self.edit_state = Some(EditState { selected, value: state.value });
                    self.dirty = true;
                    true
                } else if event == KeyEvent::Pressed(Key::A) {
                    self.value = state.value;
                    self.dirty = true;
                    self.edit_state = None;
                    bubble.push_back(Command::ValueChanged(0, Value::DateTime(self.value)));
                    bubble.push_back(Command::Unfocus);
                    true
                } else if event == KeyEvent::Pressed(Key::B) {
                    self.edit_state = None;
                    bubble.push_back(Command::Unfocus);
                    true
                } else {
                    false
                }
            },
        }
    }
}

/// The texts of the fields of a date and time as the input shows them: year, `-`, month, `-`,
/// day, a space, hours, `:`, minutes, `:`, seconds.
pub open spec fn spec_field_texts(t: NaiveDateTime) -> Seq<Seq<char>> {
    seq![
        formatted_time(t, "%Y"@),
        "-"@,
        formatted_time(t, "%m"@),
        "-"@,
        formatted_time(t, "%d"@),
        " "@,
        formatted_time(t, "%H"@),
        ":"@,
        formatted_time(t, "%M"@),
        ":"@,
        formatted_time(t, "%S"@),
    ]
}

impl DateTime {
    /// The texts of the fields shown, first to last.
    pub fn field_texts(&self) -> (v: Vec<String>)
        ensures
            texts(v@) == spec_field_texts(match self.spec_edit_state() {
                Some(s) => s.value,
                None => self.spec_value(),
            }),
    {
        let t = self.shown_value();
        proof {
            reveal_strlit("%Y");
            reveal_strlit("%m");
            reveal_strlit("%d");
            reveal_strlit("%H");
            reveal_strlit("%M");
            reveal_strlit("%S");
            reveal_strlit("-");
            reveal_strlit(" ");
            reveal_strlit(":");
        }
        let v = vec![
            format_time(t, "%Y"),
            String::from_str("-"),
            format_time(t, "%m"),
            String::from_str("-"),
            format_time(t, "%d"),
            String::from_str(" "),
            format_time(t, "%H"),
            String::from_str(":"),
            format_time(t, "%M"),
            String::from_str(":"),
            format_time(t, "%S"),
        ];
        assert(texts(v@) =~= spec_field_texts(t));
        v
    }
}

/// The arithmetic of placing the fields leftwards from `start` stays within `i32`.
pub open spec fn fields_fit(start: i32, widths: Seq<u32>) -> bool {
    &&& widths.len() == 11
    &&& i32::MIN <= start - prefix_width(widths, 11) - 11
}

/// Where the fields go, right-aligned at `start`, drawn from the last field to the first:
/// the left edge of each, one pixel apart, and its style while the field `edit` is edited
/// (`None` when not editing). `widths` are the fields' widths in the order they are drawn.
pub fn field_layout(start: i32, widths: &Vec<u32>, edit: Option<usize>) -> (l: Vec<(i32, DigitStyle)>)
    requires
        fields_fit(start, widths@),
    ensures
        l@.len() == 11,
        forall|k: int|
            0 <= k < 11 ==> #[trigger] l@[k] == (
                (start - prefix_width(widths@, k + 1) - k) as i32,
                spec_digit_style(edit, 10 - k),
            ),
{
    let mut x: i64 = start as i64;
    let mut l: Vec<(i32, DigitStyle)> = Vec::new();
    let mut k: usize = 0;
    while k < 11
        invariant
            fields_fit(start, widths@),
            k <= 11,
            x == start - prefix_width(widths@, k as int) - k,
            l@.len() == k,
            forall|j: int|
                0 <= j < k ==> #[trigger] l@[j] == (
                    (start - prefix_width(widths@, j + 1) - j) as i32,
                    spec_digit_style(edit, 10 - j),
                ),
        decreases 11 - k,
    {
        proof {
            lemma_prefix_grows(widths@, k as int + 1, 11);
        }
        let pos = x - widths[k] as i64;
        let field: usize = 10 - k;
        let style = match edit {
            Some(e) => if e == field {
                DigitStyle::Selected
            } else {
                DigitStyle::Focused
            },
            None => DigitStyle::Plain,
        };
        l.push((pos as i32, style));
        x = pos - 1;
        k = k + 1;
    }
    l
}

/// Whether the arithmetic of placing the fields leftwards from `start` stays within `i32`.
pub fn fits_fields(start: i32, widths: &Vec<u32>) -> (b: bool)
    ensures
        b == fields_fit(start, widths@),
{
    if widths.len() != 11 {
        return false;
    }
    let mut total: i64 = 0;
    let mut k: usize = 0;
    while k < 11
        invariant
            widths@.len() == 11,
            k <= 11,
            total == prefix_width(widths@, k as int),
            0 <= total <= k * 0x1_0000_0000,
        decreases 11 - k,
    {
        total = total + widths[k] as i64;
        k = k + 1;
    }
    start as i64 - total - 11 >= i32::MIN as i64
}

/// Widths add up: a longer prefix is no narrower, and none is negative.
proof fn lemma_prefix_grows(ws: Seq<u32>, m: int, n: int)
    requires
        0 <= m <= n <= ws.len(),
    ensures
        0 <= prefix_width(ws, m) <= prefix_width(ws, n),
    decreases n,
{
    if n > 0 {
        if m < n {
            lemma_prefix_grows(ws, m, n - 1);
        } else {
            lemma_prefix_grows(ws, m - 1, n - 1);
        }
    }
}

/// Each field steps the date and time by its own unit: the year by twelve months, the month
/// by one month, the day by one day, the hour by 3600 seconds, the minute by 60 seconds and
/// the second by one second, later when stepped up and earlier when stepped down; where chrono
/// cannot take the step the date and time stay as they are.
pub proof fn lemma_field_units(dt: NaiveDateTime)
    ensures
        step_field(dt, 0, true) == match chrono_add_months(dt, 12) { Some(t) => t, None => dt },
        step_field(dt, 2, true) == match chrono_add_months(dt, 1) { Some(t) => t, None => dt },
        step_field(dt, 4, true) == match chrono_add_days(dt, 1) { Some(t) => t, None => dt },
        step_field(dt, 6, true) == match chrono_add_seconds(dt, 3600) { Some(t) => t, None => dt },
        step_field(dt, 8, true) == match chrono_add_seconds(dt, 60) { Some(t) => t, None => dt },
        step_field(dt, 10, true) == match chrono_add_seconds(dt, 1) { Some(t) => t, None => dt },
        step_field(dt, 0, false) == match chrono_sub_months(dt, 12) { Some(t) => t, None => dt },
        step_field(dt, 2, false) == match chrono_sub_months(dt, 1) { Some(t) => t, None => dt },
        step_field(dt, 4, false) == match chrono_sub_days(dt, 1) { Some(t) => t, None => dt },
        step_field(dt, 6, false) == match chrono_sub_seconds(dt, 3600) { Some(t) => t, None => dt },
        step_field(dt, 8, false) == match chrono_sub_seconds(dt, 60) { Some(t) => t, None => dt },
        step_field(dt, 10, false) == match chrono_sub_seconds(dt, 1) { Some(t) => t, None => dt },
{
}

/// The cursor moves between the value fields one at a time: from any field but the second,
/// moving right and then left comes back to it, and from any field but the year, moving left
/// and then right does; it stops at the year on the left and at the second on the right.
pub proof fn lemma_cursor_round_trip(f: int)
    requires
        is_value_field(f),
    ensures
        f != 10 ==> move_field(move_field(f, false), true) == f,
        f != 0 ==> move_field(move_field(f, true), false) == f,
        f != 10 ==> is_value_field(move_field(f, false)) && move_field(f, false) == f + 2,
        f != 0 ==> is_value_field(move_field(f, true)) && move_field(f, true) == f - 2,
        move_field(0, true) == 0,
        move_field(10, false) == 10,
{
}

} // verus!
