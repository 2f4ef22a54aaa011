//! The screenshot viewer: which screenshot is shown, paging through them with the buttons,
//! and whether the interface over it is visible.

use vstd::prelude::*;
use vstd::string::*;
use crate::input::{Key, KeyEvent};
use crate::stylesheet::last_dot;

verus! {

/// The screenshot `delta` away from `current` among `len`, wrapping to the last one before the
/// first and to the first one after the last.
pub open spec fn spec_step_index(current: int, delta: int, len: int) -> int {
    let next = current + delta;
    if next < 0 {
        len - 1
    } else if next >= len {
        0
    } else {
        next
    }
}

/// The screenshot `delta` away from `current` among `len`.
pub fn step_index(current: usize, delta: isize, len: usize) -> (i: usize)
    requires
        0 < len <= isize::MAX,
        current < len,
        isize::MIN <= current + delta <= isize::MAX,
    ensures
        i == spec_step_index(current as int, delta as int, len as int),
        i < len,
{
    let next = current as isize + delta;
    if next < 0 {
        len - 1
    } else if next >= len as isize {
        0
    } else {
        next as usize
    }
}

/// What a button press did to the viewer.
#[derive(Debug, Clone, Copy, PartialEq, Eq, Structural)]
pub enum ViewerAction {
    /// The event is not the viewer's.
    Ignored,
    /// Another screenshot is shown.
    Moved,
    /// The interface over the screenshot was shown or hidden.
    ToggledUi,
    /// The viewer is to close.
    Exit,
}

/// The step a button event takes through the screenshots: back for left and up, on for right
/// and down, pressed or held; none otherwise.
pub open spec fn spec_step_for(event: KeyEvent) -> Option<int> {
    match event {
        KeyEvent::Pressed(k) | KeyEvent::Autorepeat(k) => match k {
            Key::Left | Key::Up => Some(-1),
            Key::Right | Key::Down => Some(1),
            _ => None,
        },
        KeyEvent::Released(_) => None,
    }
}

/// The state of the screenshot viewer over `count` screenshots, newest first.
#[derive(Debug, Clone, Copy, PartialEq, Eq, Structural)]
pub struct ScreenshotViewer {
    count: usize,
    current_index: usize,
    ui_visible: bool,
    dirty: bool,
}

impl ScreenshotViewer {
    pub closed spec fn spec_count(&self) -> int {
        self.count as int
    }

    pub closed spec fn spec_index(&self) -> int {
        self.current_index as int
    }

    pub closed spec fn spec_ui_visible(&self) -> bool {
        self.ui_visible
    }

    pub closed spec fn spec_dirty(&self) -> bool {
        self.dirty
    }

    /// The shown screenshot is one of them, unless there are none.
    pub open spec fn wf(&self) -> bool {
        &&& self.spec_count() <= isize::MAX
        &&& (self.spec_count() == 0 ==> self.spec_index() == 0)
        &&& (self.spec_count() > 0 ==> self.spec_index() < self.spec_count())
    }

    /// A viewer showing the first (newest) screenshot with its interface visible.
    pub fn new(count: usize) -> (v: Self)
        requires
            count <= isize::MAX,
        ensures
            v.wf(),
            v.spec_count() == count,
            v.spec_index() == 0,
            v.spec_ui_visible(),
            v.spec_dirty(),
    {
        ScreenshotViewer { count, current_index: 0, ui_visible: true, dirty: true }
    }

    pub fn current_index(&self) -> (i: usize)
        ensures
            i == self.spec_index(),
    {
        self.current_index
    }

    pub fn ui_visible(&self) -> (v: bool)
        ensures
            v == self.spec_ui_visible(),
    {
        self.ui_visible
    }

    pub fn is_empty(&self) -> (e: bool)
        ensures
            e == (self.spec_count() == 0),
    {
        self.count == 0
    }

    /// Shows the screenshot `delta` away, wrapping around; nothing happens without screenshots.
    pub fn navigate(&mut self, delta: isize)
        requires
            old(self).wf(),
            -1 <= delta <= 1,
        ensures
            final(self).wf(),
            final(self).spec_count() == old(self).spec_count(),
            final(self).spec_ui_visible() == old(self).spec_ui_visible(),
            old(self).spec_count() == 0 ==> *final(self) == *old(self),
            old(self).spec_count() > 0 ==> {
                &&& final(self).spec_index() == spec_step_index(
                    old(self).spec_index(),
                    delta as int,
                    old(self).spec_count(),
                )
                &&& final(self).spec_dirty()
            },
    {
        if self.count == 0 {
            return;
        }
        self.current_index = step_index(self.current_index, delta, self.count);
        self.dirty = true;
    }

    /// Shows or hides the interface over the screenshot.
    pub fn toggle_ui(&mut self)
        ensures
            final(self).spec_ui_visible() == !old(self).spec_ui_visible(),
            final(self).spec_dirty(),
            final(self).spec_count() == old(self).spec_count(),
            final(self).spec_index() == old(self).spec_index(),
    {
        self.ui_visible = !self.ui_visible;
        self.dirty = true;
    }

    /// After drawing, nothing is left to draw.
    pub fn mark_drawn(&mut self)
        ensures
            !final(self).spec_dirty(),
            final(self).spec_count() == old(self).spec_count(),
            final(self).spec_index() == old(self).spec_index(),
            final(self).spec_ui_visible() == old(self).spec_ui_visible(),
    {
        self.dirty = false;
    }

    pub fn should_draw(&self) -> (d: bool)
        ensures
            d == self.spec_dirty(),
    {
        self.dirty
    }

    /// Reacts to a button: the directions page through the screenshots, Y shows or hides the
    /// interface, B closes the viewer; other buttons are not the viewer's.
    pub fn handle_key_event(&mut self, event: KeyEvent) -> (a: ViewerAction)
        requires
            old(self).wf(),
        ensures
            final(self).wf(),
            final(self).spec_count() == old(self).spec_count(),
            match spec_step_for(event) {
                Some(d) => {
                    &&& a == ViewerAction::Moved
                    &&& final(self).spec_ui_visible() == old(self).spec_ui_visible()
                    &&& old(self).spec_count() == 0 ==> *final(self) == *old(self)
                    &&& old(self).spec_count() > 0 ==> final(self).spec_index() == spec_step_index(
                        old(self).spec_index(),
                        d,
                        old(self).spec_count(),
                    ) && final(self).spec_dirty()
                },
                None => if event == KeyEvent::Pressed(Key::Y) {
                    &&& a == ViewerAction::ToggledUi
                    &&& final(self).spec_ui_visible() == !old(self).spec_ui_visible()
                    &&& final(self).spec_index() == old(self).spec_index()
                    &&& final(self).spec_dirty()
                } else if event == KeyEvent::Pressed(Key::B) {
                    &&& a == ViewerAction::Exit
                    &&& *final(self) == *old(self)
                } else {
                    &&& a == ViewerAction::Ignored
                    &&& *final(self) == *old(self)
                },
            },
    {
        match event {
            KeyEvent::Pressed(Key::Left) | KeyEvent::Autorepeat(Key::Left) | KeyEvent::Pressed(
                Key::Up,
            )
            | KeyEvent::Autorepeat(Key::Up) => {
                self.navigate(-1);
                ViewerAction::Moved
            },
            KeyEvent::Pressed(Key::Right) | KeyEvent::Autorepeat(Key::Right) | KeyEvent::Pressed(
                Key::Down,
            )
            | KeyEvent::Autorepeat(Key::Down) => {
                self.navigate(1);
                ViewerAction::Moved
            },
            KeyEvent::Pressed(Key::Y) => {
                self.toggle_ui();
                ViewerAction::ToggledUi
            },
            KeyEvent::Pressed(Key::B) => ViewerAction::Exit,
            _ => ViewerAction::Ignored,
        }
    }
}

/// Paging back undoes paging on: with at least one screenshot, the one after the one before
/// any screenshot is that screenshot.
pub proof fn lemma_navigate_back_and_forth(current: int, len: int)
    requires
        0 <= current < len,
    ensures
        spec_step_index(spec_step_index(current, -1, len), 1, len) == current,
        spec_step_index(spec_step_index(current, 1, len), -1, len) == current,
{
}

/// Whether a character is white space in the sense of Unicode's `White_Space` property
/// (`char::is_whitespace`).
pub open spec fn is_white_space(c: char) -> bool {
    let u = c as u32;
    ||| 0x9 <= u <= 0xd
    ||| u == 0x20
    ||| u == 0x85
    ||| u == 0xa0
    ||| u == 0x1680
    ||| 0x2000 <= u <= 0x200a
    ||| u == 0x2028
    ||| u == 0x2029
    ||| u == 0x202f
    ||| u == 0x205f
    ||| u == 0x3000
}

/// The text without the white space at its start.
pub open spec fn trimmed_start(s: Seq<char>) -> Seq<char>
    decreases s.len(),
{
    if s.len() > 0 && is_white_space(s[0]) {
        trimmed_start(s.drop_first())
    } else {
        s
    }
}

/// The text without the white space at its end.
pub open spec fn trimmed_end(s: Seq<char>) -> Seq<char>
    decreases s.len(),
{
    if s.len() > 0 && is_white_space(s.last()) {
        trimmed_end(s.drop_last())
    } else {
        s
    }
}

/// The text `s` without the white space at either end.
pub open spec fn trimmed(s: Seq<char>) -> Seq<char> {
    trimmed_end(trimmed_start(s))
}

/// The date and time that `s` spells in the layout `layout` (`NaiveDateTime::parse_from_str`),
/// or `None` when it does not.
pub uninterp spec fn parsed_time(s: Seq<char>, layout: Seq<char>) -> Option<chrono::NaiveDateTime>;

/// A date and time written in the layout `layout` (`NaiveDateTime::format`).
pub uninterp spec fn formatted_time(t: chrono::NaiveDateTime, layout: Seq<char>) -> Seq<char>;

/// The text without white space at either end (`str::trim`, which removes the leading and
/// trailing characters that have Unicode's `White_Space` property).
#[verifier::external_body]
fn trim(s: &str) -> (r: &str)
    ensures
        r@ == trimmed(s@),
{
    s.trim()
}

/// The date and time that `s` spells in `layout` (`NaiveDateTime::parse_from_str`).
#[verifier::external_body]
fn parse_time(s: &str, layout: &str) -> (t: Option<chrono::NaiveDateTime>)
    ensures
        t == parsed_time(s@, layout@),
{
    chrono::NaiveDateTime::parse_from_str(s, layout).ok()
}

/// The layouts the library writes dates and times in: that of captions (day, month's
/// abbreviation, year, hours and minutes), and each single field of the date and time input.
pub open spec fn is_written_layout(layout: Seq<char>) -> bool {
    ||| layout == shown_time_layout()
    ||| layout == "%Y"@
    ||| layout == "%m"@
    ||| layout == "%d"@
    ||| layout == "%H"@
    ||| layout == "%M"@
    ||| layout == "%S"@
}

/// A date and time written in `layout` (`NaiveDateTime::format` and `to_string`). Writing
/// fails, and `to_string` panics, on a malformed layout, so only the library's own layouts are
/// taken, each made of fields that chrono writes for every date and time.
#[verifier::external_body]
pub(crate) fn format_time(t: chrono::NaiveDateTime, layout: &str) -> (s: String)
    requires
        is_written_layout(layout@),
    ensures
        s@ == formatted_time(t, layout@),
{
    t.format(layout).to_string()
}

/// The layout of the date and time in a screenshot's file name.
pub open spec fn file_time_layout() -> Seq<char> {
    "%Y-%m-%d_%H-%M-%S"@
}

/// The layout the date and time of a screenshot are shown in.
pub open spec fn shown_time_layout() -> Seq<char> {
    "%-d %b %Y %H:%M"@
}

/// The index of the last `-` among the first `n` characters of `s`, or -1.
pub open spec fn last_dash(s: Seq<char>, n: int) -> int
    decreases n,
{
    if n <= 0 {
        -1
    } else if s[n - 1] == '-' {
        n - 1
    } else {
        last_dash(s, n - 1)
    }
}

/// The caption of a screenshot whose file is named `name` (without extension): a name
/// `<date and time>-<program>` is shown as `<program> - <date and time>`, both trimmed and the
/// date and time rewritten; any other name is shown as it is.
pub open spec fn spec_caption(name: Seq<char>) -> Seq<char> {
    let d = last_dash(name, name.len() as int);
    if d < 0 {
        name
    } else {
        match parsed_time(trimmed(name.subrange(0, d)), file_time_layout()) {
            None => name,
            Some(t) => trimmed(name.subrange(d + 1, name.len() as int)) + " - "@ + formatted_time(
                t,
                shown_time_layout(),
            ),
        }
    }
}

/// The name split at its last `-` into what comes before and after (`str::rsplit_once`), or
/// `None` when it has none.
pub fn split_last_dash(name: &str) -> (r: Option<(&str, &str)>)
    ensures
        ({
            let d = last_dash(name@, name@.len() as int);
            match r {
                None => d < 0,
                Some((before, after)) => {
                    &&& 0 <= d
                    &&& before@ == name@.subrange(0, d)
                    &&& after@ == name@.subrange(d + 1, name@.len() as int)
                },
            }
        }),
{
    let n = name.unicode_len();
    let mut i = n;
    while i > 0
        invariant
            i <= n == name@.len(),
            last_dash(name@, n as int) == last_dash(name@, i as int),
        ensures
            i <= n == name@.len(),
            last_dash(name@, n as int) == last_dash(name@, i as int),
            i > 0 ==> name@[i - 1] == '-',
        decreases i,
    {
        if name.get_char(i - 1) == '-' {
            break;
        }
        i = i - 1;
    }
    if i == 0 {
        return None;
    }
    Some((name.substring_char(0, i - 1), name.substring_char(i, n)))
}

/// The caption put together: the program, a dash and the date and time as shown, or the whole
/// name when the date and time could not be read.
pub fn compose_caption(name: &str, program: &str, shown_time: Option<String>) -> (c: String)
    ensures
        c@ == match shown_time {
            None => name@,
            Some(t) => program@ + " - "@ + t@,
        },
{
    proof {
        reveal_strlit(" - ");
    }
    match shown_time {
        None => String::from_str(name),
        Some(t) => {
            let mut c = String::from_str(program);
            c.append(" - ");
            c.append(t.as_str());
            c
        },
    }
}

/// The caption of a screenshot whose file is named `name` (without extension).
pub fn format_filename(name: &str) -> (c: String)
    ensures
        c@ == spec_caption(name@),
{
    proof {
        reveal_strlit("%Y-%m-%d_%H-%M-%S");
        reveal_strlit("%-d %b %Y %H:%M");
    }
    match split_last_dash(name) {
        None => String::from_str(name),
        Some((date, program)) => {
            let shown = match parse_time(trim(date), "%Y-%m-%d_%H-%M-%S") {
                None => None,
                Some(t) => Some(format_time(t, "%-d %b %Y %H:%M")),
            };
            compose_caption(name, trim(program), shown)
        },
    }
}

/// A character with an ASCII capital letter made small.
pub open spec fn ascii_lower(c: char) -> char {
    if 'A' <= c <= 'Z' {
        ((c as u32) + 32) as char
    } else {
        c
    }
}

/// The extension of a file name as `Path::extension` reads it, made small: what follows its
/// last dot, unless there is none or the only dot starts the name.
pub open spec fn lower_extension(name: Seq<char>) -> Option<Seq<char>> {
    let d = last_dot(name, name.len() as int);
    if d > 0 {
        Some(name.subrange(d + 1, name.len() as int).map_values(|c: char| ascii_lower(c)))
    } else {
        None
    }
}

/// Whether a file is a screenshot: its extension is `png`, `jpg`, `jpeg` or `bmp`, in any case.
/// (No character but the ASCII capitals is made one of these letters by `to_lowercase`.)
pub open spec fn is_screenshot_name(name: Seq<char>) -> bool {
    match lower_extension(name) {
        Some(e) => e == "png"@ || e == "jpg"@ || e == "jpeg"@ || e == "bmp"@,
        None => false,
    }
}

/// Whether the characters of `name` from `start` on, made small, are `target`.
fn lower_tail_is(name: &str, start: usize, target: &str) -> (b: bool)
    requires
        start <= name@.len(),
    ensures
        b == (name@.subrange(start as int, name@.len() as int).map_values(|c: char| ascii_lower(c))
            == target@),
{
    let n = name.unicode_len();
    let m = target.unicode_len();
    let ghost tail = name@.subrange(start as int, name@.len() as int).map_values(
        |c: char| ascii_lower(c),
    );
    if n - start != m {
        assert(tail.len() != target@.len());
        return false;
    }
    let mut j: usize = 0;
    while j < m
        invariant
            n == name@.len(),
            m == target@.len(),
            start <= n,
            n - start == m,
            j <= m,
            tail == name@.subrange(start as int, name@.len() as int).map_values(
                |c: char| ascii_lower(c),
            ),
            forall|k: int| 0 <= k < j ==> tail[k] == target@[k],
        decreases m - j,
    {
        let c = name.get_char(start + j);
        let l: u32 = if 'A' <= c && c <= 'Z' {
            (c as u32) + 32
        } else {
            c as u32
        };
        assert(tail[j as int] == ascii_lower(c));
        assert(ascii_lower(c) as u32 == l);
        if l != target.get_char(j) as u32 {
            return false;
        }
        j = j + 1;
    }
    assert(tail =~= target@);
    true
}

/// Whether a file is a screenshot: its extension is `png`, `jpg`, `jpeg` or `bmp`, in any case.
pub fn is_screenshot(name: &str) -> (b: bool)
    ensures
        b == is_screenshot_name(name@),
{
    let n = name.unicode_len();
    let mut i = n;
    while i > 0
        invariant
            i <= n == name@.len(),
            last_dot(name@, n as int) == last_dot(name@, i as int),
        ensures
            i <= n == name@.len(),
            last_dot(name@, n as int) == last_dot(name@, i as int),
            i > 0 ==> name@[i - 1] == '.',
        decreases i,
    {
        if name.get_char(i - 1) == '.' {
            break;
        }
        i = i - 1;
    }
    if i <= 1 {
        return false;
    }
    proof {
        reveal_strlit("png");
        reveal_strlit("jpg");
        reveal_strlit("jpeg");
        reveal_strlit("bmp");
    }
    lower_tail_is(name, i, "png") || lower_tail_is(name, i, "jpg") || lower_tail_is(name, i, "jpeg")
        || lower_tail_is(name, i, "bmp")
}

/// Whether a screenshot taken at `a` is shown before one taken at `b`: those whose time is
/// unknown first, then the newest first.
pub open spec fn time_before(a: Option<i128>, b: Option<i128>) -> bool {
    match (a, b) {
        (None, Some(_)) => true,
        (Some(x), Some(y)) => x > y,
        _ => false,
    }
}

/// Whether a screenshot taken at `a` is shown before one taken at `b`.
fn shown_later(a: Option<i128>, b: Option<i128>) -> (r: bool)
    ensures
        r == time_before(a, b),
{
    match (a, b) {
        (None, Some(_)) => true,
        (Some(x), Some(y)) => x > y,
        _ => false,
    }
}

/// Whether file `i` of `files` is shown before file `j`: by time, and in the order of the
/// folder between files of the same time.
pub open spec fn shown_before(files: Seq<(String, Option<i128>)>, i: int, j: int) -> bool {
    time_before(files[i].1, files[j].1) || (files[i].1 == files[j].1 && i < j)
}

/// Whether `order` lists the screenshots among `files` in the order they are shown: every
/// screenshot once, nothing else, the unknown times first, then the newest first, files of the
/// same time in the order of the folder.
pub open spec fn is_screenshot_order(files: Seq<(String, Option<i128>)>, order: Seq<usize>) -> bool {
    &&& forall|a: int| 0 <= a < order.len() ==> #[trigger] order[a] < files.len()
        && is_screenshot_name(files[order[a] as int].0@)
    &&& forall|i: int|
        0 <= i < files.len() && is_screenshot_name(#[trigger] files[i].0@) ==> order.contains(
            i as usize,
        )
    &&& forall|a: int, b: int|
        0 <= a < b < order.len() ==> shown_before(files, #[trigger] order[a] as int, #[trigger] order[b] as int)
}

/// The screenshots among the files of the screenshots folder, given by name and time taken
/// (`None` when it cannot be read), in the order they are shown, as indices into `files`.
pub fn screenshot_order(files: &Vec<(String, Option<i128>)>) -> (order: Vec<usize>)
    ensures
        is_screenshot_order(files@, order@),
{
    let mut order: Vec<usize> = Vec::new();
    let mut k: usize = 0;
    while k < files.len()
        invariant
            k <= files@.len(),
            forall|a: int| 0 <= a < order@.len() ==> #[trigger] order@[a] < k
                && is_screenshot_name(files@[order@[a] as int].0@),
            forall|i: int|
                0 <= i < k && is_screenshot_name(#[trigger] files@[i].0@) ==> order@.contains(
                    i as usize,
                ),
            forall|a: int, b: int|
                0 <= a < b < order@.len() ==> shown_before(files@, #[trigger] order@[a] as int, #[trigger] order@[b] as int),
        decreases files@.len() - k,
    {
        if is_screenshot(files[k].0.as_str()) {
            let t = files[k].1;
            let mut p: usize = 0;
            while p < order.len() && !shown_later(t, files[order[p]].1)
                invariant
                    p <= order@.len(),
                    k < files@.len(),
                    t == files@[k as int].1,
                    forall|a: int| 0 <= a < order@.len() ==> #[trigger] order@[a] < k,
                    forall|a: int| 0 <= a < p ==> !time_before(t, #[trigger] files@[order@[a] as int].1),
                decreases order@.len() - p,
            {
                p = p + 1;
            }
            let ghost before = order@;
            proof {
                assert forall|a: int| p <= a < before.len() implies time_before(
                    t,
                    #[trigger] files@[before[a] as int].1,
                ) by {
                    if a > p {
                        assert(shown_before(files@, before[p as int] as int, before[a] as int));
                    }
                }
            }
            order.insert(p, k);
            proof {
                assert forall|a: int, b: int|
                    0 <= a < b < order@.len() implies shown_before(
                        files@,
                        #[trigger] order@[a] as int,
                        #[trigger] order@[b] as int,
                    ) by {
                    if a < p && b == p {
                        assert(before[a] < k);
                    } else if a < p && b > p {
                        assert(order@[b] == before[b - 1]);
                    } else if a == p {
                        assert(order@[b] == before[b - 1]);
                    } else if b < p {
                        assert(order@[a] == before[a]);
                        assert(order@[b] == before[b]);
                    } else {
                        assert(order@[a] == before[a - 1]);
                        assert(order@[b] == before[b - 1]);
                    }
                }
                assert forall|i: int|
                    0 <= i < k + 1 && is_screenshot_name(#[trigger] files@[i].0@) implies order@.contains(
                        i as usize,
                    ) by {
                    if i < k {
                        let a = choose|a: int| 0 <= a < before.len() && before[a] == i as usize;
                        if a < p {
                            assert(order@[a] == before[a]);
                        } else {
                            assert(order@[a + 1] == before[a]);
                        }
                    } else {
                        assert(order@[p as int] == k);
                    }
                }
            }
        }
        k = k + 1;
    }
    order
}

} // verus!
