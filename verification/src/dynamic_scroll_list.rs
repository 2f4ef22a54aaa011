//! A vertical list of selectable entries of differing heights that scrolls so that the
//! selected entry stays in view, and draws only the entries in view.

use vstd::prelude::*;
use crate::geom::{Alignment, Point, Rect};
use crate::input::{Key, KeyEvent};
use crate::selection::{
    clamp_index,
    clamp_to_len,
    lemma_stack_offset_monotone,
    page_back,
    page_forward,
    stack_offset,
    step_back,
    step_forward,
    wrap_back,
    wrap_forward,
};
use crate::stylesheet::Stylesheet;

verus! {

/// The first index of `s` whose value is at least `t`, or the length of `s` if there is none.
pub open spec fn is_first_at_least(s: Seq<u32>, t: int, p: int) -> bool {
    &&& 0 <= p <= s.len()
    &&& forall|j: int| 0 <= j < p ==> s[j] < t
    &&& p < s.len() ==> s[p] >= t
}

/// Whether a sequence never decreases.
pub open spec fn nondecreasing(s: Seq<u32>) -> bool {
    forall|i: int, j: int| 0 <= i <= j < s.len() ==> s[i] <= s[j]
}

/// The scroll offset after selecting the entry spanning `top..bottom` in a view of height `h`
/// scrolled to `offset`: scrolled down just far enough if the entry ends below the view, up
/// to its top if it starts above the view, and left as it is otherwise.
pub open spec fn spec_scroll_to(offset: int, top: int, bottom: int, h: int) -> int {
    if bottom > offset + h {
        if bottom - h >= 0 {
            bottom - h
        } else {
            0
        }
    } else if top < offset {
        top
    } else {
        offset
    }
}

/// Scrolling to an entry moves the view as little as can be: for an entry `top..bottom` no
/// taller than the view, the new offset shows the entry whole, and no other offset that shows
/// it whole lies nearer the old one. In particular an entry that starts above the view brings
/// the view up to its top, and one already in view leaves the view where it is.
pub proof fn lemma_scroll_is_minimal(offset: int, top: int, bottom: int, h: int, other: int)
    requires
        0 <= offset,
        0 <= top <= bottom,
        bottom - top <= h,
        0 <= other,
        other <= top,
        bottom <= other + h,
    ensures
        ({
            let r = spec_scroll_to(offset, top, bottom, h);
            &&& r <= top
            &&& bottom <= r + h
            &&& (if r >= offset { r - offset } else { offset - r }) <= (if other >= offset {
                other - offset
            } else {
                offset - other
            })
        }),
        top < offset ==> spec_scroll_to(offset, top, bottom, h) == top,
        offset <= top && bottom <= offset + h ==> spec_scroll_to(offset, top, bottom, h) == offset,
{
}

/// The horizontal position of the entries, from the list's rectangle, its alignment and the
/// horizontal margin.
pub open spec fn spec_column_x(rect: Rect, alignment: Alignment, margin_x: int) -> int {
    match alignment {
        Alignment::Left => rect.x + margin_x,
        Alignment::Center => rect.x + rect.w as int / 2,
        Alignment::Right => rect.x + rect.w as int - margin_x,
    }
}

/// The first index of `v` whose value is at least `t`; the length of `v` if there is none.
fn first_at_least(v: &Vec<u32>, t: u64) -> (p: usize)
    ensures
        is_first_at_least(v@, t as int, p as int),
{
    let mut i: usize = 0;
    while i < v.len()
        invariant
            0 <= i <= v.len(),
            forall|j: int| 0 <= j < i ==> v@[j] < t,
        decreases v.len() - i,
    {
        if v[i] as u64 >= t {
            return i;
        }
        i = i + 1;
    }
    i
}

/// A listing of selectable entries of differing heights. Only the entries in view are drawn.
#[derive(Debug)]
pub struct DynamicScrollList<V> {
    rect: Rect,
    children: Vec<V>,
    alignment: Alignment,
    margin: u32,
    /// The height of each entry.
    entry_heights: Vec<u32>,
    /// Where each entry starts, from the top of the first, and where the last one ends.
    cumulative_heights: Vec<u32>,
    /// How far the list is scrolled down, in pixels.
    scroll_offset: u32,
    selected: usize,
    dirty: bool,
    has_layout: bool,
}

impl<V> DynamicScrollList<V> {
    pub closed spec fn spec_rect(&self) -> Rect {
        self.rect
    }

    pub closed spec fn spec_children(&self) -> Seq<V> {
        self.children@
    }

    pub closed spec fn spec_alignment(&self) -> Alignment {
        self.alignment
    }

    pub closed spec fn spec_margin(&self) -> u32 {
        self.margin
    }

    pub closed spec fn spec_entry_heights(&self) -> Seq<u32> {
        self.entry_heights@
    }

    pub closed spec fn spec_cumulative_heights(&self) -> Seq<u32> {
        self.cumulative_heights@
    }

    pub closed spec fn spec_scroll_offset(&self) -> int {
        self.scroll_offset as int
    }

    pub closed spec fn spec_selected(&self) -> int {
        self.selected as int
    }

    pub closed spec fn spec_dirty(&self) -> bool {
        self.dirty
    }

    pub closed spec fn spec_has_layout(&self) -> bool {
        self.has_layout
    }

    pub open spec fn spec_len(&self) -> int {
        self.spec_children().len() as int
    }

    /// Where entry `i` starts, from the top of the first.
    pub open spec fn spec_top(&self, i: int) -> int {
        self.spec_cumulative_heights()[i] as int
    }

    /// The heights line up with the entries, their running sums never decrease and start at
    /// zero, and the selection is an entry of the list.
    pub open spec fn wf(&self) -> bool {
        &&& self.spec_entry_heights().len() == self.spec_len()
        &&& self.spec_cumulative_heights().len() == self.spec_len() + 1
        &&& self.spec_cumulative_heights()[0] == 0
        &&& nondecreasing(self.spec_cumulative_heights())
        &&& self.spec_len() == 0 ==> self.spec_selected() == 0
        &&& self.spec_len() > 0 ==> 0 <= self.spec_selected() < self.spec_len()
    }

    /// The entry at the selection lies wholly within the view.
    pub open spec fn selection_in_view(&self) -> bool {
        &&& self.spec_scroll_offset() <= self.spec_top(self.spec_selected())
        &&& self.spec_top(self.spec_selected() + 1) <= self.spec_scroll_offset()
            + self.spec_rect().h
    }

    /// The fields that selecting and scrolling leave alone are those of `other`.
    pub open spec fn same_content(&self, other: &Self) -> bool {
        &&& self.spec_rect() == other.spec_rect()
        &&& self.spec_children() == other.spec_children()
        &&& self.spec_alignment() == other.spec_alignment()
        &&& self.spec_margin() == other.spec_margin()
        &&& self.spec_entry_heights() == other.spec_entry_heights()
        &&& self.spec_cumulative_heights() == other.spec_cumulative_heights()
        &&& self.spec_has_layout() == other.spec_has_layout()
    }

    /// A list scrolled to the top with the first entry selected. Its heights are all zero
    /// until they are measured.
    pub fn new(rect: Rect, children: Vec<V>, alignment: Alignment, margin: u32) -> (l: Self)
        ensures
            l.wf(),
            l.spec_rect() == rect,
            l.spec_children() == children@,
            l.spec_alignment() == alignment,
            l.spec_margin() == margin,
            l.spec_entry_heights() == Seq::new(children.len() as nat, |i: int| 0u32),
            l.spec_cumulative_heights() == Seq::new((children.len() + 1) as nat, |i: int| 0u32),
            l.spec_scroll_offset() == 0,
            l.spec_selected() == 0,
            l.spec_dirty(),
            !l.spec_has_layout(),
    {
        let len = children.len();
        let mut entry_heights: Vec<u32> = Vec::new();
        let mut i: usize = 0;
        while i < len
            invariant
                0 <= i <= len,
                entry_heights@ == Seq::new(i as nat, |k: int| 0u32),
            decreases len - i,
        {
            entry_heights.push(0);
            i = i + 1;
        }
        let mut cumulative_heights: Vec<u32> = Vec::new();
        cumulative_heights.push(0);
        let mut i: usize = 0;
        while i < len
            invariant
                0 <= i <= len,
                cumulative_heights@ == Seq::new((i + 1) as nat, |k: int| 0u32),
            decreases len - i,
        {
            cumulative_heights.push(0);
            i = i + 1;
        }
        Self {
            rect,
            children,
            alignment,
            margin,
            entry_heights,
            cumulative_heights,
            scroll_offset: 0,
            selected: 0,
            dirty: true,
            has_layout: false,
        }
    }

    pub fn selected(&self) -> (s: usize)
        ensures
            s == self.spec_selected(),
    {
        self.selected
    }

    pub fn scroll_offset(&self) -> (o: u32)
        ensures
            o == self.spec_scroll_offset(),
    {
        self.scroll_offset
    }

    pub fn len(&self) -> (n: usize)
        ensures
            n == self.spec_len(),
    {
        self.children.len()
    }

    pub fn children(&self) -> (c: &Vec<V>)
        ensures
            c@ == self.spec_children(),
    {
        &self.children
    }

    pub fn bounding_box(&self) -> (r: Rect)
        ensures
            r == self.spec_rect(),
    {
        self.rect
    }

    /// Selects entry `index`, held within the entries. When the selection changes, the list
    /// scrolls just far enough to show the selected entry, which then lies wholly in view if
    /// it is no taller than the list. Does nothing on an empty list.
    pub fn select(&mut self, index: usize)
        requires
            old(self).wf(),
        ensures
            final(self).wf(),
            final(self).same_content(&*old(self)),
            old(self).spec_len() == 0 ==> *final(self) == *old(self),
            old(self).spec_len() > 0 ==> {
                let i = clamp_index(index as int, old(self).spec_len());
                &&& final(self).spec_selected() == i
                &&& i == old(self).spec_selected() ==> *final(self) == *old(self)
                &&& i != old(self).spec_selected() ==> {
                    &&& final(self).spec_scroll_offset() == spec_scroll_to(
                        old(self).spec_scroll_offset(),
                        old(self).spec_top(i),
                        old(self).spec_top(i + 1),
                        old(self).spec_rect().h as int,
                    )
                    &&& final(self).spec_dirty()
                    &&& old(self).spec_top(i + 1) - old(self).spec_top(i)
                        <= old(self).spec_rect().h ==> final(self).selection_in_view()
                }
            },
    {
        let len = self.children.len();
        if len == 0 {
            return ;
        }
        let old_selected = self.selected;
        self.selected = clamp_to_len(index, len);
        if old_selected != self.selected {
            self.adjust_scroll();
            self.dirty = true;
        }
    }

    /// Scrolls just far enough to show the selected entry.
    fn adjust_scroll(&mut self)
        requires
            old(self).wf(),
            old(self).spec_len() > 0,
        ensures
            final(self).wf(),
            final(self).same_content(&*old(self)),
            final(self).spec_selected() == old(self).spec_selected(),
            final(self).spec_dirty() == old(self).spec_dirty(),
            final(self).spec_scroll_offset() == spec_scroll_to(
                old(self).spec_scroll_offset(),
                old(self).spec_top(old(self).spec_selected()),
                old(self).spec_top(old(self).spec_selected() + 1),
                old(self).spec_rect().h as int,
            ),
    {
        let sel = self.selected;
        assert(sel + 1 < self.cumulative_heights.len());
        let top = self.cumulative_heights[sel];
        let bottom = self.cumulative_heights[sel + 1];
        if bottom as u64 > self.scroll_offset as u64 + self.rect.h as u64 {
            self.scroll_offset = bottom.saturating_sub(self.rect.h);
        } else if top < self.scroll_offset {
            self.scroll_offset = top;
        }
    }

    /// Moves the selection for a button press: Up and Down step with wrap-around, L and R jump
    /// five entries and stop at either end. Returns whether the event was handled; nothing is
    /// handled on an empty list.
    pub fn handle_key_event(&mut self, event: KeyEvent) -> (handled: bool)
        requires
            old(self).wf(),
        ensures
            final(self).wf(),
            final(self).same_content(&*old(self)),
            handled == (old(self).spec_len() > 0 && (event.spec_pushes(Key::Up)
                || event.spec_pushes(Key::Down) || event.spec_pushes(Key::L)
                || event.spec_pushes(Key::R))),
            !handled ==> *final(self) == *old(self),
            handled ==> final(self).spec_selected() == {
                let s = old(self).spec_selected();
                let n = old(self).spec_len();
                if event.spec_pushes(Key::Up) {
                    step_back(s, n)
                } else if event.spec_pushes(Key::Down) {
                    step_forward(s, n)
                } else if event.spec_pushes(Key::L) {
                    clamp_index(s - 5, n)
                } else {
                    clamp_index(s + 5, n)
                }
            },
    {
        let n = self.children.len();
        if n == 0 {
            return false;
        }
        let s = self.selected;
        if event.pushes(Key::Up) {
            self.select(wrap_back(s, n));
            true
        } else if event.pushes(Key::Down) {
            self.select(wrap_forward(s, n));
            true
        } else if event.pushes(Key::L) {
            self.select(page_back(s, 5, n));
            true
        } else if event.pushes(Key::R) {
            self.select(page_forward(s, 5, n));
            true
        } else {
            false
        }
    }

    /// Measures the entries again: `heights` holds the height of each, and each is followed
    /// by the list's margin and the stylesheet's vertical margin. The entries are laid out
    /// again before the next draw.
    pub fn recalculate_heights(&mut self, heights: &Vec<u32>, styles: &Stylesheet)
        requires
            old(self).wf(),
            heights.len() == old(self).spec_len(),
            heights.len() > 0 ==> styles.margin_y >= 0,
            heights.len() > 0 ==> stack_offset(
                heights@,
                old(self).spec_margin() + styles.margin_y,
                heights.len() as int,
            ) <= u32::MAX,
        ensures
            final(self).wf(),
            final(self).spec_entry_heights() == heights@,
            forall|i: int|
                0 <= i <= heights.len() ==> #[trigger] final(self).spec_top(i) == stack_offset(
                    heights@,
                    old(self).spec_margin() + styles.margin_y,
                    i,
                ),
            !final(self).spec_has_layout(),
            final(self).spec_dirty(),
            final(self).spec_rect() == old(self).spec_rect(),
            final(self).spec_children() == old(self).spec_children(),
            final(self).spec_alignment() == old(self).spec_alignment(),
            final(self).spec_margin() == old(self).spec_margin(),
            final(self).spec_scroll_offset() == old(self).spec_scroll_offset(),
            final(self).spec_selected() == old(self).spec_selected(),
    {
        let n = heights.len();
        let ghost gap: int = self.margin + styles.margin_y;
        let mut entry_heights: Vec<u32> = Vec::new();
        let mut cumulative: Vec<u32> = Vec::new();
        cumulative.push(0);
        let mut sum: u32 = 0;
        let mut i: usize = 0;
        while i < n
            invariant
                0 <= i <= n,
                n == heights.len(),
                n > 0 ==> styles.margin_y >= 0,
                n > 0 ==> stack_offset(heights@, gap, n as int) <= u32::MAX,
                gap == self.margin + styles.margin_y,
                entry_heights@ == heights@.subrange(0, i as int),
                cumulative@.len() == i + 1,
                sum == stack_offset(heights@, gap, i as int),
                forall|k: int|
                    0 <= k <= i ==> #[trigger] cumulative@[k] == stack_offset(heights@, gap, k),
            decreases n - i,
        {
            proof {
                lemma_stack_offset_monotone(heights@, gap, i + 1, n as int);
            }
            entry_heights.push(heights[i]);
            sum = sum + heights[i] + self.margin + styles.margin_y as u32;
            cumulative.push(sum);
            i = i + 1;
        }
        proof {
            assert(entry_heights@ == heights@);
            if n > 0 {
                assert forall|a: int, b: int| 0 <= a <= b < cumulative@.len() implies cumulative@[a]
                    <= cumulative@[b] by {
                    lemma_stack_offset_monotone(heights@, gap, a, b);
                }
            }
        }
        self.entry_heights = entry_heights;
        self.cumulative_heights = cumulative;
        self.has_layout = false;
        self.dirty = true;
    }

    /// The heights the entries are laid out with: those measured before, or `heights` if
    /// none was measured yet (all are zero).
    pub open spec fn heights_for_layout(&self, heights: Seq<u32>) -> Seq<u32> {
        if forall|i: int| 0 <= i < self.spec_entry_heights().len() ==> #[trigger]
            self.spec_entry_heights()[i] == 0 {
            heights
        } else {
            self.spec_entry_heights()
        }
    }

    /// Where each entry goes, one below the other from the top of the list inset by the
    /// vertical margin, each followed by the list's margin and the vertical margin, moved up by
    /// the scroll offset; across, at the left edge inset by the horizontal margin, the middle,
    /// or the right edge inset by it, as aligned. If no height was measured yet (all are zero),
    /// the entries are measured first, `heights` holding the height of each. Returns `None`
    /// when the entries are already laid out.
    pub fn layout(&mut self, heights: &Vec<u32>, styles: &Stylesheet) -> (positions: Option<
        Vec<Point>,
    >)
        requires
            old(self).wf(),
            heights.len() == old(self).spec_len(),
            heights.len() > 0 ==> styles.margin_y >= 0,
            stack_offset(
                old(self).heights_for_layout(heights@),
                old(self).spec_margin() + styles.margin_y,
                heights.len() as int,
            ) <= i32::MAX,
            i32::MIN <= old(self).spec_rect().y + styles.margin_y - old(self).spec_scroll_offset(),
            old(self).spec_rect().y + styles.margin_y + stack_offset(
                old(self).heights_for_layout(heights@),
                old(self).spec_margin() + styles.margin_y,
                heights.len() as int,
            ) <= i32::MAX,
            old(self).spec_scroll_offset() <= i32::MAX,
            old(self).spec_rect().w <= i32::MAX,
            i32::MIN <= spec_column_x(old(self).spec_rect(), old(self).spec_alignment(), styles.margin_x as int)
                <= i32::MAX,
            old(self).spec_alignment() is Left ==> i32::MIN <= old(self).spec_rect().x + styles.margin_x
                <= i32::MAX,
            old(self).spec_alignment() is Right ==> i32::MIN <= old(self).spec_rect().x + old(self).spec_rect().w
                <= i32::MAX,
        ensures
            final(self).wf(),
            old(self).spec_has_layout() ==> positions is None && *final(self) == *old(self),
            !old(self).spec_has_layout() ==> {
                let used = old(self).heights_for_layout(heights@);
                let gap = old(self).spec_margin() + styles.margin_y;
                &&& positions is Some
                &&& positions->Some_0@.len() == heights.len()
                &&& forall|i: int|
                    0 <= i < heights.len() ==> (#[trigger] positions->Some_0@[i]).x
                        == spec_column_x(
                        old(self).spec_rect(),
                        old(self).spec_alignment(),
                        styles.margin_x as int,
                    ) && positions->Some_0@[i].y == old(self).spec_rect().y + styles.margin_y
                        + stack_offset(used, gap, i) - old(self).spec_scroll_offset()
                &&& final(self).spec_entry_heights() == used
                &&& final(self).spec_has_layout()
                &&& final(self).spec_selected() == old(self).spec_selected()
                &&& final(self).spec_scroll_offset() == old(self).spec_scroll_offset()
                &&& final(self).spec_rect() == old(self).spec_rect()
                &&& final(self).spec_children() == old(self).spec_children()
                &&& final(self).spec_alignment() == old(self).spec_alignment()
                &&& final(self).spec_margin() == old(self).spec_margin()
            },
    {
        if self.has_layout {
            return None;
        }
        let n = self.children.len();
        let mut all_zero = true;
        let mut k: usize = 0;
        while k < n
            invariant
                0 <= k <= n,
                n == self.entry_heights@.len(),
                all_zero == forall|j: int| 0 <= j < k ==> #[trigger] self.entry_heights@[j] == 0,
            decreases n - k,
        {
            if self.entry_heights[k] != 0 {
                all_zero = false;
            }
            k = k + 1;
        }
        let ghost used = self.heights_for_layout(heights@);
        if all_zero {
            proof {
                if n > 0 {
                    lemma_stack_offset_monotone(heights@, self.margin + styles.margin_y, 0, n as int);
                }
            }
            self.recalculate_heights(heights, styles);
        }
        assert(self.entry_heights@ == used);
        let ghost gap: int = self.margin + styles.margin_y;
        proof {
            if n > 0 {
                lemma_stack_offset_monotone(used, gap, 0, n as int);
            }
        }
        let x: i32 = match self.alignment {
            Alignment::Left => self.rect.x + styles.margin_x,
            Alignment::Center => self.rect.x + (self.rect.w / 2) as i32,
            Alignment::Right => self.rect.x + self.rect.w as i32 - styles.margin_x,
        };
        let offset: i32 = self.scroll_offset as i32;
        let mut y: i32 = self.rect.y + styles.margin_y;
        let mut positions: Vec<Point> = Vec::new();
        let mut i: usize = 0;
        while i < n
            invariant
                0 <= i <= n,
                n == self.entry_heights@.len(),
                n == heights.len(),
                used == self.entry_heights@,
                n > 0 ==> styles.margin_y >= 0,
                gap == self.margin + styles.margin_y,
                offset == self.scroll_offset,
                x == spec_column_x(self.rect, self.alignment, styles.margin_x as int),
                y == self.rect.y + styles.margin_y + stack_offset(used, gap, i as int),
                stack_offset(used, gap, n as int) <= i32::MAX,
                self.rect.y + styles.margin_y + stack_offset(used, gap, n as int) <= i32::MAX,
                i32::MIN <= self.rect.y + styles.margin_y - self.scroll_offset,
                positions@.len() == i,
                forall|j: int|
                    0 <= j < i ==> (#[trigger] positions@[j]).x == x && positions@[j].y
                        == self.rect.y + styles.margin_y + stack_offset(used, gap, j)
                        - self.scroll_offset,
            decreases n - i,
        {
            proof {
                lemma_stack_offset_monotone(used, gap, i as int, n as int);
                lemma_stack_offset_monotone(used, gap, i + 1, n as int);
                lemma_stack_offset_monotone(used, gap, 0, i as int);
            }
            positions.push(Point::new(x, y - offset));
            y = y + self.entry_heights[i] as i32 + self.margin as i32 + styles.margin_y;
            i = i + 1;
        }
        self.has_layout = true;
        Some(positions)
    }

    /// The entries in view, as the index of the first and one past the last: from the entry
    /// before the first that ends at or below the top of the view, to the last that starts
    /// above its bottom.
    pub fn visible_range(&self) -> (r: (usize, usize))
        requires
            self.wf(),
        ensures
            self.spec_len() == 0 ==> r == (0usize, 0usize),
            self.spec_len() > 0 ==> {
                exists|p: int, q: int|
                    {
                        &&& #[trigger] is_first_at_least(
                            self.spec_cumulative_heights(),
                            self.spec_scroll_offset(),
                            p,
                        )
                        &&& #[trigger] is_first_at_least(
                            self.spec_cumulative_heights(),
                            self.spec_scroll_offset() + self.spec_rect().h,
                            q,
                        )
                        &&& r.0 == if p - 1 <= 0 {
                            0
                        } else if p - 1 <= self.spec_len() {
                            p - 1
                        } else {
                            self.spec_len()
                        }
                        &&& r.1 == if q <= self.spec_len() {
                            q
                        } else {
                            self.spec_len()
                        }
                    }
            },
    {
        let len = self.children.len();
        if len == 0 {
            return (0, 0);
        }
        let top: u64 = self.scroll_offset as u64;
        let bottom: u64 = self.scroll_offset as u64 + self.rect.h as u64;
        let p = first_at_least(&self.cumulative_heights, top);
        let q = first_at_least(&self.cumulative_heights, bottom);
        let before = if p == 0 {
            0
        } else {
            p - 1
        };
        let start = if before <= len {
            before
        } else {
            len
        };
        let end = if q <= len {
            q
        } else {
            len
        };
        assert(is_first_at_least(
            self.spec_cumulative_heights(),
            self.spec_scroll_offset(),
            p as int,
        ));
        assert(is_first_at_least(
            self.spec_cumulative_heights(),
            self.spec_scroll_offset() + self.spec_rect().h,
            q as int,
        ));
        (start, end)
    }
}

} // verus!
