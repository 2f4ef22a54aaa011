//! A vertical list of selectable entries of equal size.

use vstd::prelude::*;
use crate::geom::{Alignment, Point, Rect};
use crate::input::{Key, KeyEvent};
use crate::selection::{
    clamp_index,
    lemma_stack_offset_monotone,
    lemma_step_roundtrip,
    page_back,
    page_forward,
    stack_offset,
    step_back,
    step_forward,
    wrap_back,
    wrap_forward,
};

verus! {

/// The selection that a key event moves a list of `n` entries to, from `s`; `None` for an
/// event the list does not handle. Up and Down step with wrap-around, Left and Right jump five
/// entries and stop at either end.
pub open spec fn list_key_target(event: KeyEvent, s: int, n: int) -> Option<int> {
    if event.spec_pushes(Key::Up) {
        Some(step_back(s, n))
    } else if event.spec_pushes(Key::Down) {
        Some(step_forward(s, n))
    } else if event.spec_pushes(Key::Left) {
        Some(clamp_index(s - 5, n))
    } else if event.spec_pushes(Key::Right) {
        Some(clamp_index(s + 5, n))
    } else {
        None
    }
}

/// A listing of selectable entries. All entries are assumed to have the same size.
#[derive(Debug)]
pub struct List<V> {
    rect: Rect,
    children: Vec<V>,
    alignment: Alignment,
    margin: u32,
    selected: usize,
    dirty: bool,
    has_layout: bool,
}

impl<V> List<V> {
    pub closed spec fn spec_rect(&self) -> Rect {
        self.rect
    }

    pub closed spec fn spec_children(&self) -> Seq<V> {
        self.children@
    }

    pub closed spec fn spec_alignment(&self) -> Alignment {
        self.alignment
    }

    pub closed spec fn spec_margin(&self) -> u32 {
        self.margin
    }

    pub closed spec fn spec_selected(&self) -> int {
        self.selected as int
    }

    pub closed spec fn spec_dirty(&self) -> bool {
        self.dirty
    }

    pub closed spec fn spec_has_layout(&self) -> bool {
        self.has_layout
    }

    pub fn new(rect: Rect, children: Vec<V>, alignment: Alignment, margin: u32) -> (l: Self)
        ensures
            l.spec_rect() == rect,
            l.spec_children() == children@,
            l.spec_alignment() == alignment,
            l.spec_margin() == margin,
            l.spec_selected() == 0,
            l.spec_dirty(),
            !l.spec_has_layout(),
    {
        Self { rect, children, alignment, margin, selected: 0, dirty: true, has_layout: false }
    }

    /// Selects entry `index`, which is taken as it is.
    pub fn select(&mut self, index: usize)
        ensures
            final(self).spec_selected() == index,
            final(self).spec_dirty(),
            final(self).spec_rect() == old(self).spec_rect(),
            final(self).spec_children() == old(self).spec_children(),
            final(self).spec_alignment() == old(self).spec_alignment(),
            final(self).spec_margin() == old(self).spec_margin(),
            final(self).spec_has_layout() == old(self).spec_has_layout(),
    {
        self.selected = index;
        self.dirty = true;
    }

    pub fn selected(&self) -> (s: usize)
        ensures
            s == self.spec_selected(),
    {
        self.selected
    }

    pub fn len(&self) -> (n: usize)
        ensures
            n == self.spec_children().len(),
    {
        self.children.len()
    }

    pub fn children(&self) -> (c: &Vec<V>)
        ensures
            c@ == self.spec_children(),
    {
        &self.children
    }

    pub fn should_draw(&self) -> (d: bool)
        ensures
            d == self.spec_dirty(),
    {
        self.dirty
    }

    pub fn set_should_draw(&mut self)
        ensures
            final(self).spec_dirty(),
            final(self).spec_selected() == old(self).spec_selected(),
            final(self).spec_rect() == old(self).spec_rect(),
            final(self).spec_children() == old(self).spec_children(),
            final(self).spec_alignment() == old(self).spec_alignment(),
            final(self).spec_margin() == old(self).spec_margin(),
            final(self).spec_has_layout() == old(self).spec_has_layout(),
    {
        self.dirty = true;
    }

    pub fn bounding_box(&self) -> (r: Rect)
        ensures
            r == self.spec_rect(),
    {
        self.rect
    }

    /// Moves the list; its entries are laid out again before the next draw.
    pub fn set_position(&mut self, point: Point)
        ensures
            final(self).spec_rect() == (Rect { x: point.x, y: point.y, ..old(self).spec_rect() }),
            !final(self).spec_has_layout(),
            final(self).spec_dirty(),
            final(self).spec_selected() == old(self).spec_selected(),
            final(self).spec_children() == old(self).spec_children(),
            final(self).spec_alignment() == old(self).spec_alignment(),
            final(self).spec_margin() == old(self).spec_margin(),
    {
        self.rect.x = point.x;
        self.rect.y = point.y;
        self.has_layout = false;
        self.dirty = true;
    }

    /// Moves the selection for a button press: Up and Down step with wrap-around, Left and
    /// Right jump five entries and stop at either end. Returns whether the event was handled.
    pub fn handle_key_event(&mut self, event: KeyEvent) -> (handled: bool)
        requires
            old(self).spec_children().len() > 0 || list_key_target(
                event,
                old(self).spec_selected(),
                old(self).spec_children().len() as int,
            ) is None,
        ensures
            handled == list_key_target(
                event,
                old(self).spec_selected(),
                old(self).spec_children().len() as int,
            ) is Some,
            handled ==> final(self).spec_selected() == list_key_target(
                event,
                old(self).spec_selected(),
                old(self).spec_children().len() as int,
            )->Some_0 && final(self).spec_dirty(),
            !handled ==> final(self).spec_selected() == old(self).spec_selected()
                && final(self).spec_dirty() == old(self).spec_dirty(),
            final(self).spec_rect() == old(self).spec_rect(),
            final(self).spec_children() == old(self).spec_children(),
            final(self).spec_alignment() == old(self).spec_alignment(),
            final(self).spec_margin() == old(self).spec_margin(),
            final(self).spec_has_layout() == old(self).spec_has_layout(),
    {
        let n = self.children.len();
        if event.pushes(Key::Up) {
            let s = wrap_back(self.selected, n);
            self.select(s);
            true
        } else if event.pushes(Key::Down) {
            let s = wrap_forward(self.selected, n);
            self.select(s);
            true
        } else if event.pushes(Key::Left) {
            let s = page_back(self.selected, 5, n);
            self.select(s);
            true
        } else if event.pushes(Key::Right) {
            let s = page_forward(self.selected, 5, n);
            self.select(s);
            true
        } else {
            false
        }
    }

    /// Where each entry goes: one below the other from the list's top-left corner, inset by
    /// 12 pixels across and 8 down, each `height + margin + 8` pixels below the previous.
    /// Returns `None` when the entries are already laid out. `heights` holds the height of
    /// each entry.
    pub fn layout(&mut self, heights: &Vec<u32>) -> (positions: Option<Vec<Point>>)
        requires
            heights.len() == old(self).spec_children().len(),
            old(self).spec_rect().x + 12 <= i32::MAX,
            stack_offset(heights@, old(self).spec_margin() + 8, heights.len() as int)
                <= i32::MAX,
            old(self).spec_rect().y + 8 + stack_offset(
                heights@,
                old(self).spec_margin() + 8,
                heights.len() as int,
            ) <= i32::MAX,
        ensures
            old(self).spec_has_layout() ==> positions is None && *final(self) == *old(self),
            !old(self).spec_has_layout() ==> {
                &&& positions is Some
                &&& positions->Some_0@.len() == heights.len()
                &&& forall|i: int|
                    0 <= i < heights.len() ==> (#[trigger] positions->Some_0@[i]).x
                        == old(self).spec_rect().x + 12 && positions->Some_0@[i].y
                        == old(self).spec_rect().y + 8 + stack_offset(
                        heights@,
                        old(self).spec_margin() + 8,
                        i,
                    )
                &&& final(self).spec_has_layout()
                &&& final(self).spec_dirty()
                &&& final(self).spec_selected() == old(self).spec_selected()
                &&& final(self).spec_rect() == old(self).spec_rect()
                &&& final(self).spec_children() == old(self).spec_children()
                &&& final(self).spec_alignment() == old(self).spec_alignment()
                &&& final(self).spec_margin() == old(self).spec_margin()
            },
    {
        if self.has_layout {
            return None;
        }
        let ghost gap: int = self.margin + 8;
        let ghost n: int = heights.len() as int;
        proof {
            lemma_stack_offset_monotone(heights@, gap, 0, n);
        }
        let x = self.rect.x + 12;
        let mut y = self.rect.y + 8;
        let mut positions: Vec<Point> = Vec::new();
        let mut i: usize = 0;
        while i < heights.len()
            invariant
                0 <= i <= heights.len(),
                n == heights.len(),
                gap == self.margin + 8,
                x == self.rect.x + 12,
                y == self.rect.y + 8 + stack_offset(heights@, gap, i as int),
                stack_offset(heights@, gap, n) <= i32::MAX,
                self.rect.y + 8 + stack_offset(heights@, gap, n) <= i32::MAX,
                positions@.len() == i,
                forall|k: int|
                    0 <= k < i ==> (#[trigger] positions@[k]).x == x && positions@[k].y
                        == self.rect.y + 8 + stack_offset(heights@, gap, k),
            decreases heights.len() - i,
        {
            positions.push(Point::new(x, y));
            proof {
                lemma_stack_offset_monotone(heights@, gap, i + 1, n);
                lemma_stack_offset_monotone(heights@, gap, 0, i as int);
            }
            y = y + heights[i] as i32 + self.margin as i32 + 8;
            i = i + 1;
        }
        self.has_layout = true;
        self.dirty = true;
        Some(positions)
    }
}

/// On a list of `n` entries with a valid selection, every handled key event leaves the
/// selection valid, and Down undoes Up and Up undoes Down.
pub proof fn lemma_list_keys_keep_selection(event: KeyEvent, s: int, n: int)
    requires
        0 <= s < n,
    ensures
        list_key_target(event, s, n) matches Some(t) ==> 0 <= t < n,
        step_forward(step_back(s, n), n) == s,
        step_back(step_forward(s, n), n) == s,
{
    lemma_step_roundtrip(s, n);
}

} // verus!
