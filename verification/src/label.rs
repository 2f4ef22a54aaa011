//! A line of text: its placement by alignment, the text shown when it is cut to a width, and
//! the marquee that scrolls text too wide for its width. Measuring the text needs the font, so
//! the caller measures and hands the sizes in.

use vstd::prelude::*;
use vstd::string::*;
use crate::geom::{Alignment, Point, Rect, Size};
use crate::stylesheet::StylesheetColor;

verus! {

/// How long scrolling waits before the text moves, in microseconds.
pub const SCROLL_DELAY_MICROS: u64 = 1_000_000;

/// How long the text takes to move by one character while scrolling, in microseconds.
pub const SCROLL_INTERVAL_MICROS: u64 = 166_667;

/// The blank between the end of scrolling text and its start coming round again.
pub open spec fn scroll_gap() -> Seq<char> {
    seq![' ', ' ', ' ', ' ', ' ']
}

/// The text shown while scrolling `offset` characters in: the text, the gap and the start of
/// the text again, from the offset on.
pub open spec fn spec_scroll_text(text: Seq<char>, offset: int) -> Seq<char> {
    let again = if offset <= text.len() {
        text.subrange(0, offset)
    } else {
        text
    };
    let full = text + scroll_gap() + again;
    if offset >= full.len() {
        Seq::empty()
    } else {
        full.subrange(offset, full.len() as int)
    }
}

/// The text shown while scrolling `offset` characters in.
pub fn scroll_text(text: &str, offset: usize) -> (s: String)
    requires
        2 * text@.len() + 5 <= usize::MAX,
    ensures
        s@ == spec_scroll_text(text@, offset as int),
{
    let n = text.unicode_len();
    let take = if offset <= n {
        offset
    } else {
        n
    };
    let mut full = String::from_str(text);
    proof {
        reveal_strlit("     ");
    }
    full.append("     ");
    full.append(text.substring_char(0, take));
    assert(full@ =~= text@ + scroll_gap() + (if offset <= n {
        text@.subrange(0, offset as int)
    } else {
        text@
    }));
    let total = n + 5 + take;
    if offset >= total {
        String::new()
    } else {
        String::from_str(full.as_str().substring_char(offset, total))
    }
}

/// How many characters scrolling moves on after `dt` microseconds waited: one per interval
/// beyond the delay.
pub open spec fn scroll_steps(dt: int) -> int
    decreases dt,
{
    if dt > SCROLL_DELAY_MICROS && SCROLL_INTERVAL_MICROS > 0 {
        1 + scroll_steps(dt - SCROLL_INTERVAL_MICROS)
    } else {
        0
    }
}

proof fn lemma_scroll_steps_nonneg(dt: int)
    ensures
        scroll_steps(dt) >= 0,
    decreases dt,
{
    if dt > SCROLL_DELAY_MICROS {
        lemma_scroll_steps_nonneg(dt - SCROLL_INTERVAL_MICROS);
    }
}

/// The wait left over once scrolling has moved on.
pub open spec fn scroll_rest(dt: int) -> int
    decreases dt,
{
    if dt > SCROLL_DELAY_MICROS && SCROLL_INTERVAL_MICROS > 0 {
        scroll_rest(dt - SCROLL_INTERVAL_MICROS)
    } else {
        dt
    }
}

/// Where scrolling text stands: how many characters in, and how long it has waited.
#[derive(Debug, Clone, Copy, PartialEq, Eq, Structural)]
pub struct Scrolling {
    pub offset: usize,
    pub dt: u64,
}

/// A line of text anchored at a point: left, middle or right as aligned, cut to a width when it
/// has one, scrolling within it when asked to.
#[derive(Debug, Clone)]
pub struct Label {
    rect: Option<Rect>,
    point: Point,
    text: String,
    alignment: Alignment,
    width: Option<u32>,
    truncated_text: Option<String>,
    color: StylesheetColor,
    stroke_color: StylesheetColor,
    scrolling: Option<Scrolling>,
    dirty: bool,
}

impl Label {
    pub closed spec fn spec_rect(&self) -> Option<Rect> {
        self.rect
    }

    pub closed spec fn spec_point(&self) -> Point {
        self.point
    }

    pub closed spec fn spec_text(&self) -> Seq<char> {
        self.text@
    }

    pub closed spec fn spec_alignment(&self) -> Alignment {
        self.alignment
    }

    pub closed spec fn spec_width(&self) -> Option<u32> {
        self.width
    }

    /// The text as laid out for drawing, once it is.
    pub closed spec fn spec_shown(&self) -> Option<Seq<char>> {
        match self.truncated_text {
            Some(t) => Some(t@),
            None => None,
        }
    }

    pub closed spec fn spec_color(&self) -> StylesheetColor {
        self.color
    }

    pub closed spec fn spec_stroke_color(&self) -> StylesheetColor {
        self.stroke_color
    }

    pub closed spec fn spec_scrolling(&self) -> Option<Scrolling> {
        self.scrolling
    }

    pub closed spec fn spec_dirty(&self) -> bool {
        self.dirty
    }

    /// A label of `text` at `point`, in the foreground colour with the usual stroke, not laid
    /// out yet and to be drawn.
    pub fn new(point: Point, text: String, alignment: Alignment, width: Option<u32>) -> (l: Self)
        ensures
            l.spec_rect() is None,
            l.spec_point() == point,
            l.spec_text() == text@,
            l.spec_alignment() == alignment,
            l.spec_width() == width,
            l.spec_shown() is None,
            l.spec_color() == StylesheetColor::Foreground,
            l.spec_stroke_color() == StylesheetColor::Stroke,
            l.spec_scrolling() is None,
            l.spec_dirty(),
    {
        Label {
            rect: None,
            point,
            text,
            alignment,
            width,
            truncated_text: None,
            color: StylesheetColor::Foreground,
            stroke_color: StylesheetColor::Stroke,
            scrolling: None,
            dirty: true,
        }
    }

    /// Starts scrolling from the start when asked to and the label has a width; stops it
    /// otherwise. Either way the text is laid out again.
    pub fn scroll(&mut self, enabled: bool)
        ensures
            final(self).spec_scrolling() == if enabled && old(self).spec_width() is Some {
                Some(Scrolling { offset: 0, dt: 0 })
            } else {
                None::<Scrolling>
            },
            final(self).spec_shown() is None,
            final(self).spec_rect() == old(self).spec_rect(),
            final(self).spec_point() == old(self).spec_point(),
            final(self).spec_text() == old(self).spec_text(),
            final(self).spec_width() == old(self).spec_width(),
            final(self).spec_dirty() == old(self).spec_dirty(),
            final(self).spec_color() == old(self).spec_color(),
    {
        if enabled && self.width.is_some() {
            self.scrolling = Some(Scrolling { offset: 0, dt: 0 });
        } else {
            self.scrolling = None;
        }
        self.truncated_text = None;
    }

    pub fn color(&mut self, color: StylesheetColor)
        ensures
            final(self).spec_color() == color,
            final(self).spec_dirty(),
            final(self).spec_text() == old(self).spec_text(),
            final(self).spec_shown() == old(self).spec_shown(),
            final(self).spec_point() == old(self).spec_point(),
    {
        self.color = color;
        self.dirty = true;
    }

    pub fn stroke_color(&mut self, stroke_color: StylesheetColor)
        ensures
            final(self).spec_stroke_color() == stroke_color,
            final(self).spec_dirty(),
            final(self).spec_text() == old(self).spec_text(),
            final(self).spec_shown() == old(self).spec_shown(),
            final(self).spec_point() == old(self).spec_point(),
    {
        self.stroke_color = stroke_color;
        self.dirty = true;
    }

    pub fn text(&self) -> (t: &str)
        ensures
            t@ == self.spec_text(),
    {
        self.text.as_str()
    }

    /// Shows other text; the same text changes nothing, other text is laid out and drawn
    /// again.
    pub fn set_text(&mut self, text: String)
        ensures
            final(self).spec_text() == text@,
            text@ == old(self).spec_text() ==> *final(self) == *old(self),
            text@ != old(self).spec_text() ==> {
                &&& final(self).spec_shown() is None
                &&& final(self).spec_rect() is None
                &&& final(self).spec_dirty()
            },
            final(self).spec_point() == old(self).spec_point(),
            final(self).spec_scrolling() == old(self).spec_scrolling(),
            final(self).spec_width() == old(self).spec_width(),
    {
        if !self.text.eq(&text) {
            self.text = text;
            self.truncated_text = None;
            self.rect = None;
            self.dirty = true;
        }
    }

    pub fn width(&self) -> (w: Option<u32>)
        ensures
            w == self.spec_width(),
    {
        self.width
    }

    /// Whether the text is yet to be laid out for drawing.
    pub fn needs_layout(&self) -> (n: bool)
        ensures
            n == self.spec_shown() is None,
    {
        self.truncated_text.is_none()
    }

    /// The text to cut to the width: while scrolling, the text as far as it has scrolled;
    /// otherwise the text itself.
    pub fn text_to_fit(&self) -> (t: String)
        requires
            2 * self.spec_text().len() + 5 <= usize::MAX,
        ensures
            t@ == match (self.spec_scrolling(), self.spec_width()) {
                (Some(s), Some(_)) => spec_scroll_text(self.spec_text(), s.offset as int),
                _ => self.spec_text(),
            },
    {
        match (&self.scrolling, &self.width) {
            (Some(s), Some(_)) => scroll_text(self.text.as_str(), s.offset),
            _ => self.text.clone(),
        }
    }

    /// Keeps the layout: the text measures `size` and `shown` is what fits the width. The label
    /// is drawn again.
    pub fn set_layout(&mut self, size: Size, shown: String)
        ensures
            final(self).spec_rect() == Some(
                Rect { x: old(self).spec_point().x, y: old(self).spec_point().y, w: size.w, h: size.h },
            ),
            final(self).spec_shown() == Some(shown@),
            final(self).spec_dirty(),
            final(self).spec_text() == old(self).spec_text(),
            final(self).spec_point() == old(self).spec_point(),
            final(self).spec_scrolling() == old(self).spec_scrolling(),
            final(self).spec_width() == old(self).spec_width(),
    {
        self.rect = Some(Rect { x: self.point.x, y: self.point.y, w: size.w, h: size.h });
        self.truncated_text = Some(shown);
        self.dirty = true;
    }

    /// The text laid out for drawing, once it is.
    pub fn shown_text(&self) -> (t: Option<&String>)
        ensures
            match t {
                Some(s) => self.spec_shown() == Some(s@),
                None => self.spec_shown() is None,
            },
    {
        match &self.truncated_text {
            Some(s) => Some(s),
            None => None,
        }
    }

    /// Where text `text_width` wide starts: at the anchor, half its width left of it, or its
    /// whole width left of it, as aligned.
    pub fn draw_position(&self, text_width: u32) -> (p: Point)
        requires
            text_width <= i32::MAX,
            i32::MIN <= self.spec_point().x - text_width,
        ensures
            p.y == self.spec_point().y,
            p.x == match self.spec_alignment() {
                Alignment::Left => self.spec_point().x as int,
                Alignment::Center => self.spec_point().x - (text_width / 2),
                Alignment::Right => self.spec_point().x - text_width,
            },
    {
        match self.alignment {
            Alignment::Left => self.point,
            Alignment::Center => Point { x: self.point.x - text_width as i32 / 2, y: self.point.y },
            Alignment::Right => Point { x: self.point.x - text_width as i32, y: self.point.y },
        }
    }

    /// The area of the label for text that measures `size`: no wider than the label's width,
    /// placed by alignment.
    pub fn bounding_box(&self, size: Size) -> (r: Rect)
        requires
            size.w <= i32::MAX,
            i32::MIN <= self.spec_point().x - size.w,
        ensures
            ({
                let w = match self.spec_width() {
                    Some(width) => if width < size.w {
                        width
                    } else {
                        size.w
                    },
                    None => size.w,
                };
                &&& r.w == w
                &&& r.h == size.h
                &&& r.y == self.spec_point().y
                &&& r.x == match self.spec_alignment() {
                    Alignment::Left => self.spec_point().x as int,
                    Alignment::Center => self.spec_point().x - (w / 2),
                    Alignment::Right => self.spec_point().x - w,
                }
            }),
    {
        let w = match self.width {
            Some(width) => if width < size.w {
                width
            } else {
                size.w
            },
            None => size.w,
        };
        let x = match self.alignment {
            Alignment::Left => self.point.x,
            Alignment::Center => self.point.x - w as i32 / 2,
            Alignment::Right => self.point.x - w as i32,
        };
        Rect { x, y: self.point.y, w, h: size.h }
    }

    /// Moves the label; moving it to where it is changes nothing.
    pub fn set_position(&mut self, point: Point)
        ensures
            final(self).spec_point() == point,
            point == old(self).spec_point() ==> *final(self) == *old(self),
            point != old(self).spec_point() ==> final(self).spec_dirty(),
            final(self).spec_text() == old(self).spec_text(),
            final(self).spec_shown() == old(self).spec_shown(),
    {
        if self.point == point {
            return;
        }
        self.point = point;
        self.dirty = true;
    }

    pub fn should_draw(&self) -> (d: bool)
        ensures
            d == self.spec_dirty(),
    {
        self.dirty
    }

    pub fn set_should_draw(&mut self)
        ensures
            final(self).spec_dirty(),
            final(self).spec_text() == old(self).spec_text(),
            final(self).spec_shown() == old(self).spec_shown(),
            final(self).spec_point() == old(self).spec_point(),
            final(self).spec_scrolling() == old(self).spec_scrolling(),
    {
        self.dirty = true;
    }

    /// After drawing, nothing is left to draw.
    pub fn mark_drawn(&mut self)
        ensures
            !final(self).spec_dirty(),
            final(self).spec_text() == old(self).spec_text(),
            final(self).spec_shown() == old(self).spec_shown(),
            final(self).spec_point() == old(self).spec_point(),
            final(self).spec_scrolling() == old(self).spec_scrolling(),
    {
        self.dirty = false;
    }

    /// Moves scrolling text on after `dt` microseconds: text that is laid out, has a width and
    /// is wider than it moves one character for each interval its wait runs past the delay;
    /// text that fits stops scrolling. When the offset it had reached the end of the text and
    /// the gap, it starts again from the beginning. Moving lays the text out and draws it again.
    pub fn update(&mut self, dt: u64)
        requires
            old(self).spec_text().len() + 5 <= usize::MAX,
            old(self).spec_scrolling() matches Some(s) ==> s.dt + dt <= u64::MAX && s.offset
                + scroll_steps(s.dt + dt) <= usize::MAX,
        ensures
            match (old(self).spec_scrolling(), old(self).spec_rect(), old(self).spec_width()) {
                (None, _, _) => *final(self) == *old(self),
                (Some(_), None, _) => *final(self) == *old(self),
                (Some(_), Some(_), None) => final(self).spec_scrolling() is None
                    && final(self).spec_shown() is None && final(self).spec_dirty()
                    == old(self).spec_dirty(),
                (Some(s), Some(rect), Some(width)) => if rect.w < width {
                    &&& final(self).spec_scrolling() is None
                    &&& final(self).spec_shown() is None
                    &&& final(self).spec_dirty() == old(self).spec_dirty()
                } else {
                    let total = s.dt + dt;
                    let moved = s.offset + scroll_steps(total);
                    let offset = if s.offset >= old(self).spec_text().len() + 5 {
                        0
                    } else {
                        moved
                    };
                    &&& final(self).spec_scrolling() == Some(
                        Scrolling { offset: offset as usize, dt: scroll_rest(total) as u64 },
                    )
                    &&& offset != s.offset ==> final(self).spec_shown() is None
                        && final(self).spec_dirty()
                    &&& offset == s.offset ==> final(self).spec_shown() == old(self).spec_shown()
                        && final(self).spec_dirty() == old(self).spec_dirty()
                },
            },
            final(self).spec_text() == old(self).spec_text(),
            final(self).spec_point() == old(self).spec_point(),
            final(self).spec_width() == old(self).spec_width(),
    {
        let s = match self.scrolling {
            Some(s) => s,
            None => {
                return;
            },
        };
        let rect = match self.rect {
            Some(r) => r,
            None => {
                return;
            },
        };
        let width = match self.width {
            Some(w) => w,
            None => {
                self.scroll(false);
                return;
            },
        };
        if rect.w < width {
            self.scroll(false);
            return;
        }
        let start = s.offset;
        let mut offset = s.offset;
        let mut wait = s.dt + dt;
        let ghost total = (s.dt + dt) as int;
        while wait > SCROLL_DELAY_MICROS
            invariant
                offset - start + scroll_steps(wait as int) == scroll_steps(total),
                scroll_rest(wait as int) == scroll_rest(total),
                start + scroll_steps(total) <= usize::MAX,
                start <= offset,
            decreases wait,
        {
            proof {
                lemma_scroll_steps_nonneg(wait - SCROLL_INTERVAL_MICROS);
            }
            wait = wait - SCROLL_INTERVAL_MICROS;
            offset = offset + 1;
        }
        if start >= self.text.as_str().unicode_len() + 5 {
            offset = 0;
        }
        self.scrolling = Some(Scrolling { offset, dt: wait });
        if offset != start {
            self.truncated_text = None;
            self.dirty = true;
        }
    }
}

/// Scrolling comes full circle: once the text and the gap have scrolled by, the text shows
/// from its start again, as it did before scrolling with the gap after it.
pub proof fn lemma_scroll_comes_round(text: Seq<char>)
    ensures
        spec_scroll_text(text, text.len() + 5int) =~= text,
        spec_scroll_text(text, 0) =~= text + scroll_gap(),
{
    assert(text.subrange(0, 0) =~= Seq::<char>::empty());
    assert((text + scroll_gap() + Seq::<char>::empty()) =~= text + scroll_gap());
    assert((text + scroll_gap() + text).subrange(text.len() + 5int, 2 * text.len() + 5int) =~= text);
}

} // verus!
