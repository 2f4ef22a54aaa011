//! A horizontal carousel of selectable entries of constant width, scrolled so that the
//! selected entry stays in view.

use vstd::prelude::*;
use crate::geom::{Alignment, Point, Rect};
use crate::input::{Key, KeyEvent};
use crate::selection::{clamp_index, clamp_to_len, page_back, page_forward};
use crate::stylesheet::StylesheetColor;

verus! {

/// How many entries of width `entry_width`, each followed by `margin`, fit across `width`,
/// but no more than there are entries.
pub open spec fn spec_visible_count(width: u32, entry_width: u32, margin: u32, len: int) -> int {
    let fit = width as int / (entry_width + margin);
    if fit <= len {
        fit
    } else {
        len
    }
}

/// The first entry shown after selecting `index` (already held within the entries), given
/// the first entry shown before and the number of entries in view: the view scrolls just far
/// enough to bring the selection into it.
pub open spec fn spec_scrolled_left(left: int, index: int, visible: int, len: int) -> int {
    if index >= left + visible {
        if index - visible + 1 <= len - 1 {
            index - visible + 1
        } else {
            len - 1
        }
    } else if index < left {
        index
    } else {
        left
    }
}

/// The vertical position of the entries, from the carousel's rectangle and alignment.
pub open spec fn spec_row_y(rect: Rect, alignment: Alignment) -> int {
    match alignment {
        Alignment::Left => rect.y as int,
        Alignment::Center => rect.y + rect.h as int / 2,
        Alignment::Right => rect.y + rect.h as int,
    }
}

/// An entry of a carousel, which holds the focus while it is selected.
pub trait Focusable {
    spec fn spec_is_focused(&self) -> bool;

    fn focus(&mut self)
        ensures
            final(self).spec_is_focused(),
    ;

    fn blur(&mut self)
        ensures
            !final(self).spec_is_focused(),
    ;
}

/// `after` is `before` with the entry at `i` given the focus (or, with `focused` false, with
/// its focus taken away) and every other entry as it was.
pub open spec fn refocused<V: Focusable>(before: Seq<V>, after: Seq<V>, i: int, focused: bool) -> bool {
    &&& after.len() == before.len()
    &&& after[i].spec_is_focused() == focused
    &&& forall|j: int| 0 <= j < before.len() && j != i ==> after[j] == before[j]
}

/// A horizontal carousel of selectable entries of constant width. One entry beyond those
/// in view is drawn too, so that the carousel scrolls seamlessly.
#[derive(Debug)]
pub struct CarouselList<V> {
    rect: Rect,
    children: Vec<V>,
    alignment: Alignment,
    entry_width: u32,
    margin: u32,
    left: usize,
    selected: usize,
    background_color: Option<StylesheetColor>,
    dirty: bool,
}

/// Gives the entry at `i` the focus, or takes it away.
fn set_focus<V: Focusable>(children: &mut Vec<V>, i: usize, focused: bool)
    requires
        i < old(children)@.len(),
    ensures
        refocused(old(children)@, final(children)@, i as int, focused),
{
    if focused {
        children[i].focus();
    } else {
        children[i].blur();
    }
}

impl<V: Focusable> CarouselList<V> {
    pub closed spec fn spec_rect(&self) -> Rect {
        self.rect
    }

    pub closed spec fn spec_children(&self) -> Seq<V> {
        self.children@
    }

    pub closed spec fn spec_alignment(&self) -> Alignment {
        self.alignment
    }

    pub closed spec fn spec_entry_width(&self) -> u32 {
        self.entry_width
    }

    pub closed spec fn spec_margin(&self) -> u32 {
        self.margin
    }

    pub closed spec fn spec_left(&self) -> int {
        self.left as int
    }

    pub closed spec fn spec_selected(&self) -> int {
        self.selected as int
    }

    pub closed spec fn spec_background_color(&self) -> Option<StylesheetColor> {
        self.background_color
    }

    pub closed spec fn spec_dirty(&self) -> bool {
        self.dirty
    }

    pub open spec fn spec_len(&self) -> int {
        self.spec_children().len() as int
    }

    /// The number of entries in view.
    pub open spec fn spec_visible(&self) -> int {
        spec_visible_count(
            self.spec_rect().w,
            self.spec_entry_width(),
            self.spec_margin(),
            self.spec_len(),
        )
    }

    /// The number of entries drawn: one more than those in view, but no more than there are.
    pub open spec fn spec_render_count(&self) -> int {
        if self.spec_visible() + 1 <= self.spec_len() {
            self.spec_visible() + 1
        } else {
            self.spec_len()
        }
    }

    /// One past the last entry drawn.
    pub open spec fn spec_range_end(&self) -> int {
        if self.spec_left() + self.spec_render_count() <= self.spec_len() {
            self.spec_left() + self.spec_render_count()
        } else {
            self.spec_len()
        }
    }

    /// The selection and the first entry shown are entries of the list, and whenever at
    /// least one entry fits in view, the selected one is in view.
    pub open spec fn wf(&self) -> bool {
        &&& self.spec_len() == 0 ==> self.spec_selected() == 0 && self.spec_left() == 0
        &&& self.spec_len() > 0 ==> {
            &&& 0 <= self.spec_selected() < self.spec_len()
            &&& 0 <= self.spec_left() < self.spec_len()
            &&& self.spec_visible() >= 1 ==> self.spec_left() <= self.spec_selected()
                < self.spec_left() + self.spec_visible()
        }
    }

    /// The fields other than the entries, the selection, the first entry shown and the redraw
    /// flag are those of `other`.
    pub open spec fn same_layout(&self, other: &Self) -> bool {
        &&& self.spec_rect() == other.spec_rect()
        &&& self.spec_children().len() == other.spec_children().len()
        &&& self.spec_alignment() == other.spec_alignment()
        &&& self.spec_entry_width() == other.spec_entry_width()
        &&& self.spec_margin() == other.spec_margin()
        &&& self.spec_background_color() == other.spec_background_color()
    }

    /// A carousel showing its entries from the first, with the first selected and given the
    /// focus.
    pub fn new(
        rect: Rect,
        children: Vec<V>,
        alignment: Alignment,
        entry_width: u32,
        margin: u32,
    ) -> (c: Self)
        ensures
            c.wf(),
            c.spec_rect() == rect,
            children@.len() == 0 ==> c.spec_children() == children@,
            children@.len() > 0 ==> refocused(children@, c.spec_children(), 0, true),
            c.spec_alignment() == alignment,
            c.spec_entry_width() == entry_width,
            c.spec_margin() == margin,
            c.spec_left() == 0,
            c.spec_selected() == 0,
            c.spec_background_color() is None,
            c.spec_dirty(),
    {
        let mut children = children;
        if children.len() > 0 {
            set_focus(&mut children, 0, true);
        }
        Self {
            rect,
            children,
            alignment,
            entry_width,
            margin,
            left: 0,
            selected: 0,
            background_color: None,
            dirty: true,
        }
    }

    pub fn set_background_color(&mut self, color: Option<StylesheetColor>)
        ensures
            final(self).spec_background_color() == color,
            final(self).spec_dirty(),
            final(self).spec_rect() == old(self).spec_rect(),
            final(self).spec_children() == old(self).spec_children(),
            final(self).spec_alignment() == old(self).spec_alignment(),
            final(self).spec_entry_width() == old(self).spec_entry_width(),
            final(self).spec_margin() == old(self).spec_margin(),
            final(self).spec_left() == old(self).spec_left(),
            final(self).spec_selected() == old(self).spec_selected(),
    {
        self.background_color = color;
        self.dirty = true;
    }

    pub fn selected(&self) -> (s: usize)
        ensures
            s == self.spec_selected(),
    {
        self.selected
    }

    /// The first entry shown.
    pub fn left(&self) -> (l: usize)
        ensures
            l == self.spec_left(),
    {
        self.left
    }

    pub fn len(&self) -> (n: usize)
        ensures
            n == self.spec_len(),
    {
        self.children.len()
    }

    pub fn children(&self) -> (c: &Vec<V>)
        ensures
            c@ == self.spec_children(),
    {
        &self.children
    }

    pub fn background_color(&self) -> (c: Option<StylesheetColor>)
        ensures
            c == self.spec_background_color(),
    {
        self.background_color
    }

    pub fn bounding_box(&self) -> (r: Rect)
        ensures
            r == self.spec_rect(),
    {
        self.rect
    }

    /// The number of entries in view.
    pub fn visible_count(&self) -> (n: usize)
        requires
            self.spec_entry_width() + self.spec_margin() > 0,
        ensures
            n == self.spec_visible(),
    {
        let step: u64 = self.entry_width as u64 + self.margin as u64;
        let fit: u64 = self.rect.w as u64 / step;
        let len = self.children.len();
        if fit <= len as u64 {
            fit as usize
        } else {
            len
        }
    }

    /// Selects entry `index`, held within the entries, and scrolls just far enough to bring
    /// it into view; the entry selected before loses the focus, then the new one takes it.
    /// Does nothing on an empty carousel.
    pub fn select(&mut self, index: usize)
        requires
            old(self).wf(),
            old(self).spec_len() > 0 ==> old(self).spec_entry_width() + old(self).spec_margin() > 0,
        ensures
            final(self).wf(),
            final(self).same_layout(&*old(self)),
            old(self).spec_len() == 0 ==> *final(self) == *old(self),
            old(self).spec_len() > 0 ==> {
                let i = clamp_index(index as int, old(self).spec_len());
                let s0 = old(self).spec_selected();
                &&& final(self).spec_selected() == i
                &&& final(self).spec_left() == spec_scrolled_left(
                    old(self).spec_left(),
                    i,
                    old(self).spec_visible(),
                    old(self).spec_len(),
                )
                &&& final(self).spec_dirty()
                &&& final(self).spec_children()[i].spec_is_focused()
                &&& s0 != i ==> !final(self).spec_children()[s0].spec_is_focused()
                &&& forall|j: int|
                    0 <= j < old(self).spec_len() && j != s0 && j != i
                        ==> #[trigger] final(self).spec_children()[j] == old(self).spec_children()[j]
            },
    {
        let len = self.children.len();
        if len == 0 {
            return ;
        }
        let ghost before = self.children@;
        set_focus(&mut self.children, self.selected, false);
        let ghost blurred = self.children@;
        let index = clamp_to_len(index, len);
        let visible = self.visible_count();
        if index >= self.left && index - self.left >= visible {
            let l = index - visible + 1;
            self.left = if l <= len - 1 {
                l
            } else {
                len - 1
            };
        } else if index < self.left {
            self.left = index;
        }
        self.selected = index;
        set_focus(&mut self.children, index, true);
        self.dirty = true;
        assert forall|j: int|
            0 <= j < len && j != old(self).spec_selected() && j != index implies
                #[trigger] self.children@[j] == before[j] by {
            assert(blurred[j] == before[j]);
        }
    }

    /// Moves the selection for a button press: Left and Right step one entry, L and R jump
    /// five; all stop at either end. Returns whether the event was handled; nothing is
    /// handled on an empty carousel.
    pub fn handle_key_event(&mut self, event: KeyEvent) -> (handled: bool)
        requires
            old(self).wf(),
            old(self).spec_len() > 0 ==> old(self).spec_entry_width() + old(self).spec_margin() > 0,
        ensures
            final(self).wf(),
            final(self).same_layout(&*old(self)),
            handled == (old(self).spec_len() > 0 && (event.spec_pushes(Key::Left)
                || event.spec_pushes(Key::Right) || event.spec_pushes(Key::L)
                || event.spec_pushes(Key::R))),
            !handled ==> *final(self) == *old(self),
            handled ==> {
                let s = old(self).spec_selected();
                let n = old(self).spec_len();
                let target = if event.spec_pushes(Key::Left) {
                    clamp_index(s - 1, n)
                } else if event.spec_pushes(Key::Right) {
                    clamp_index(s + 1, n)
                } else if event.spec_pushes(Key::L) {
                    clamp_index(s - 5, n)
                } else {
                    clamp_index(s + 5, n)
                };
                &&& final(self).spec_selected() == target
                &&& final(self).spec_left() == spec_scrolled_left(
                    old(self).spec_left(),
                    target,
                    old(self).spec_visible(),
                    n,
                )
                &&& final(self).spec_dirty()
                &&& final(self).spec_children()[target].spec_is_focused()
                &&& s != target ==> !final(self).spec_children()[s].spec_is_focused()
                &&& forall|j: int|
                    0 <= j < n && j != s && j != target
                        ==> #[trigger] final(self).spec_children()[j] == old(self).spec_children()[j]
            },
    {
        let n = self.children.len();
        if n == 0 {
            return false;
        }
        let s = self.selected;
        if event.pushes(Key::Left) {
            self.select(page_back(s, 1, n));
            true
        } else if event.pushes(Key::Right) {
            self.select(page_forward(s, 1, n));
            true
        } else if event.pushes(Key::L) {
            self.select(page_back(s, 5, n));
            true
        } else if event.pushes(Key::R) {
            self.select(page_forward(s, 5, n));
            true
        } else {
            false
        }
    }

    /// The entries drawn, as the index of the first and one past the last: from the first
    /// entry shown, one more than fit in view.
    pub fn visible_range(&self) -> (r: (usize, usize))
        requires
            self.wf(),
            self.spec_entry_width() + self.spec_margin() > 0,
        ensures
            r.0 == self.spec_left(),
            r.1 == self.spec_range_end(),
            r.0 <= r.1 <= self.spec_len(),
    {
        let visible = self.visible_count();
        let len = self.children.len();
        let render = if visible < len {
            visible + 1
        } else {
            len
        };
        let end = if render <= len - self.left {
            self.left + render
        } else {
            len
        };
        (self.left, end)
    }

    /// Where the entries drawn go, in the order of `visible_range`: side by side from the
    /// left edge inset by `margin_x`, `entry_width + margin` apart, at the top, middle or
    /// bottom of the carousel as aligned.
    pub fn layout_children(&self, margin_x: i32) -> (positions: Vec<Point>)
        requires
            self.wf(),
            self.spec_entry_width() + self.spec_margin() > 0,
            self.spec_entry_width() + self.spec_margin() <= i32::MAX,
            self.spec_rect().h <= i32::MAX,
            self.spec_rect().y + self.spec_rect().h <= i32::MAX,
            i32::MIN <= self.spec_rect().x + margin_x,
            self.spec_rect().x + margin_x + self.spec_render_count() * (self.spec_entry_width()
                + self.spec_margin()) <= i32::MAX,
        ensures
            positions@.len() == self.spec_range_end() - self.spec_left(),
            forall|i: int|
                0 <= i < positions@.len() ==> (#[trigger] positions@[i]).x == self.spec_rect().x
                    + margin_x + i * (self.spec_entry_width() + self.spec_margin())
                    && positions@[i].y == spec_row_y(self.spec_rect(), self.spec_alignment()),
    {
        let (start, end) = self.visible_range();
        let ghost render = self.spec_render_count();
        let step: i32 = (self.entry_width + self.margin) as i32;
        let y: i32 = match self.alignment {
            Alignment::Left => self.rect.y,
            Alignment::Center => self.rect.y + (self.rect.h / 2) as i32,
            Alignment::Right => self.rect.y + self.rect.h as i32,
        };
        let base: i32 = self.rect.x + margin_x;
        let mut x: i32 = base;
        let mut positions: Vec<Point> = Vec::new();
        let mut i: usize = 0;
        while i < end - start
            invariant
                start <= end,
                end - start <= render,
                0 <= i <= end - start,
                step == self.entry_width + self.margin,
                step >= 0,
                x == base + i * step,
                base + render * step <= i32::MAX,
                y == spec_row_y(self.rect, self.alignment),
                positions@.len() == i,
                forall|k: int|
                    0 <= k < i ==> (#[trigger] positions@[k]).x == base + k * step
                        && positions@[k].y == y,
            decreases end - start - i,
        {
            positions.push(Point::new(x, y));
            proof {
                assert((i + 1) * step <= render * step) by (nonlinear_arith)
                    requires
                        i + 1 <= render,
                        step >= 0,
                ;
                assert((i + 1) * step == i * step + step) by (nonlinear_arith);
            }
            x = x + step;
            i = i + 1;
        }
        positions
    }
}

} // verus!
