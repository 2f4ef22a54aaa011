//! Holding a rectangle of the screen over what another program draws: the rectangle is packed
//! once into framebuffer-ordered rows, with its corners rounded off, and those rows are copied
//! into every page of the framebuffer again and again.

use vstd::prelude::*;
use crate::framebuffer::{bgra_byte, clip_rect, clip_lo, clip_hi, fb_index};
use crate::geom::Rect;

verus! {

/// One row of a stamp: where it goes within a page, and which bytes of the stamp it is.
#[derive(Debug, Clone, Copy, PartialEq, Eq, Structural)]
pub struct StampRow {
    pub offset: usize,
    pub start: usize,
    pub len: usize,
}

/// The rows of a rectangle in framebuffer order, repeated over each of `pages` pages that lie
/// `page_stride` bytes apart.
#[derive(Debug)]
pub struct Stamp {
    bytes: Vec<u8>,
    rows: Vec<StampRow>,
    pages: usize,
    page_stride: usize,
}

/// The clipped area of a stamp and its corner radius: the columns `x0..x1` and rows `y0..y1`
/// of `area` on a screen `w` by `h`, and the radius cut to half of each side. `None` when
/// nothing of the area is on the screen.
pub open spec fn spec_stamp_area(area: Rect, w: int, h: int, radius: int) -> Option<
    (int, int, int, int, int),
> {
    let x0 = clip_lo(area.x as int);
    let y0 = clip_lo(area.y as int);
    let x1 = clip_hi(area.spec_right(), w);
    let y1 = clip_hi(area.spec_bottom(), h);
    if x0 >= x1 || y0 >= y1 {
        None
    } else {
        let r1 = if radius <= (x1 - x0) / 2 {
            radius
        } else {
            (x1 - x0) / 2
        };
        let r = if r1 <= (y1 - y0) / 2 {
            r1
        } else {
            (y1 - y0) / 2
        };
        Some((x0, y0, x1, y1, r))
    }
}

/// The clipped area of a stamp and its corner radius.
pub fn stamp_area(area: Rect, w: usize, h: usize, radius: u32) -> (r: Option<
    (usize, usize, usize, usize, usize),
>)
    requires
        area.edges_fit(),
    ensures
        match spec_stamp_area(area, w as int, h as int, radius as int) {
            Some(s) => r matches Some(t) && t.0 == s.0 && t.1 == s.1 && t.2 == s.2 && t.3 == s.3
                && t.4 == s.4,
            None => r is None,
        },
{
    let (x0, y0, x1, y1) = clip_rect(area, w, h);
    if x0 >= x1 || y0 >= y1 {
        return None;
    }
    let radius = radius as usize;
    let r = if radius <= (x1 - x0) / 2 {
        radius
    } else {
        (x1 - x0) / 2
    };
    let r = if r <= (y1 - y0) / 2 {
        r
    } else {
        (y1 - y0) / 2
    };
    Some((x0, y0, x1, y1, r))
}

/// The bytes of row `y` of an RGBA screen buffer `w` wide from column `rx1 - 1` back to `rx0`,
/// each pixel as blue, green, red, alpha: the framebuffer is turned half a turn.
pub open spec fn row_bytes(pixmap: Seq<u8>, w: int, y: int, rx0: int, rx1: int) -> Seq<u8> {
    Seq::new((4 * (rx1 - rx0)) as nat, |i: int| bgra_byte(pixmap, w, rx1 - 1 - i / 4, y, i % 4))
}

/// The rows and bytes of a stamp after its first `n` rows, from row `y0`: row `y0 + k` spans
/// the columns `x0 + insets[k]` to `x1 - insets[k]`, and is left out when that is empty.
pub open spec fn stamp_upto(
    pixmap: Seq<u8>,
    w: int,
    h: int,
    bpp: int,
    x0: int,
    y0: int,
    x1: int,
    insets: Seq<usize>,
    n: nat,
) -> (Seq<StampRow>, Seq<u8>)
    decreases n,
{
    if n == 0 {
        (Seq::empty(), Seq::empty())
    } else {
        let (rows, bytes) = stamp_upto(pixmap, w, h, bpp, x0, y0, x1, insets, (n - 1) as nat);
        let y = y0 + n - 1;
        let rx0 = x0 + insets[n - 1];
        let rx1 = x1 - insets[n - 1];
        if rx0 >= rx1 {
            (rows, bytes)
        } else {
            let row = row_bytes(pixmap, w, y, rx0, rx1);
            (
                rows.push(
                    StampRow {
                        offset: (((h - 1 - y) * w + (w - rx1)) * bpp) as usize,
                        start: bytes.len() as usize,
                        len: row.len() as usize,
                    },
                ),
                bytes + row,
            )
        }
    }
}

/// How many pages a stamp covers: the virtual height in screens, from one to three.
pub open spec fn stamp_pages(yres_virtual: int, h: int) -> int {
    let p = yres_virtual / (if h >= 1 {
        h
    } else {
        1
    });
    if p < 1 {
        1
    } else if p > 3 {
        3
    } else {
        p
    }
}

/// The arithmetic of packing a stamp stays within `usize`.
pub open spec fn stamp_fits(w: int, h: int, bpp: int) -> bool {
    &&& 4 * w * h * bpp + 4 * w * h <= usize::MAX
}

/// The stamp's areas of interest are consistent: each row lies within its bytes, and copying
/// any row into any page stays within `usize`.
pub open spec fn stamp_rows_fit(rows: Seq<StampRow>, bytes: Seq<u8>, pages: int, stride: int) -> bool {
    &&& pages * stride <= usize::MAX
    &&& forall|i: int|
        #![trigger rows[i]]
        0 <= i < rows.len() ==> {
            &&& rows[i].start + rows[i].len <= bytes.len()
            &&& pages * stride + rows[i].offset + rows[i].len <= usize::MAX
        }
}

impl Stamp {
    pub closed spec fn spec_bytes(&self) -> Seq<u8> {
        self.bytes@
    }

    pub closed spec fn spec_rows(&self) -> Seq<StampRow> {
        self.rows@
    }

    pub closed spec fn spec_pages(&self) -> int {
        self.pages as int
    }

    pub closed spec fn spec_page_stride(&self) -> int {
        self.page_stride as int
    }

    pub open spec fn wf(&self) -> bool {
        &&& self.spec_pages() <= 3
        &&& stamp_rows_fit(self.spec_rows(), self.spec_bytes(), self.spec_pages(), self.spec_page_stride())
    }

    /// Packs the columns `x0..x1` of rows `y0..y1` of an RGBA screen buffer `w` by `h` into a
    /// stamp for a framebuffer of `bpp` bytes a pixel whose virtual height is `yres_virtual`;
    /// `insets[k]` is how far row `y0 + k` is cut in on each side to round the corners. `None`
    /// when every row is cut away.
    pub fn build(
        pixmap: &[u8],
        w: usize,
        h: usize,
        bpp: usize,
        x0: usize,
        y0: usize,
        x1: usize,
        y1: usize,
        insets: &[usize],
        yres_virtual: usize,
    ) -> (s: Option<Stamp>)
        requires
            pixmap@.len() == 4 * w * h,
            x0 < x1 <= w,
            y0 < y1 <= h,
            insets@.len() == y1 - y0,
            forall|k: int| 0 <= k < insets@.len() ==> #[trigger] insets@[k] <= x1 - x0,
            stamp_fits(w as int, h as int, bpp as int),
        ensures
            ({
                let (rows, bytes) = stamp_upto(
                    pixmap@,
                    w as int,
                    h as int,
                    bpp as int,
                    x0 as int,
                    y0 as int,
                    x1 as int,
                    insets@,
                    (y1 - y0) as nat,
                );
                match s {
                    None => rows.len() == 0,
                    Some(st) => {
                        &&& rows.len() > 0
                        &&& st.wf()
                        &&& st.spec_rows() == rows
                        &&& st.spec_bytes() == bytes
                        &&& st.spec_pages() == stamp_pages(yres_virtual as int, h as int)
                        &&& st.spec_page_stride() == w * h * bpp
                    },
                }
            }),
    {
        assert(4 * w * h <= usize::MAX && w * h * bpp <= usize::MAX && 4 * w <= 4 * w * h && w * h
            <= usize::MAX)
            by (nonlinear_arith)
            requires
                4 * w * h * bpp + 4 * w * h <= usize::MAX,
                h >= 1,
        ;
        let mut rows: Vec<StampRow> = Vec::new();
        let mut bytes: Vec<u8> = Vec::new();
        let mut y = y0;
        while y < y1
            invariant
                pixmap@.len() == 4 * w * h,
                x0 < x1 <= w,
                y0 <= y <= y1 <= h,
                insets@.len() == y1 - y0,
                forall|k: int| 0 <= k < insets@.len() ==> #[trigger] insets@[k] <= x1 - x0,
                stamp_fits(w as int, h as int, bpp as int),
                4 * w * h <= usize::MAX,
                w * h <= usize::MAX,
                w * h * bpp <= usize::MAX,
                4 * w <= 4 * w * h,
                (rows@, bytes@) == stamp_upto(
                    pixmap@,
                    w as int,
                    h as int,
                    bpp as int,
                    x0 as int,
                    y0 as int,
                    x1 as int,
                    insets@,
                    (y - y0) as nat,
                ),
                bytes@.len() <= 4 * w * (y - y0),
                forall|i: int|
                    #![trigger rows@[i]]
                    0 <= i < rows@.len() ==> {
                        &&& rows@[i].start + rows@[i].len <= bytes@.len()
                        &&& rows@[i].offset <= w * h * bpp
                        &&& rows@[i].len <= 4 * w
                    },
            decreases y1 - y,
        {
            let inset = insets[y - y0];
            let rx0 = x0 + inset;
            let rx1 = x1 - inset;
            if rx0 < rx1 {
                let start = bytes.len();
                assert(start + 4 * (rx1 - rx0) <= 4 * w * (y + 1 - y0)) by (nonlinear_arith)
                    requires
                        start <= 4 * w * (y - y0),
                        rx1 <= w,
                        rx0 < rx1,
                ;
                assert(4 * w * (y + 1 - y0) <= 4 * w * h) by (nonlinear_arith)
                    requires
                        y + 1 - y0 <= h,
                ;
                let ghost before = bytes@;
                let mut x = rx1;
                while x > rx0
                    invariant
                        pixmap@.len() == 4 * w * h,
                        4 * w * h <= usize::MAX,
                        rx0 <= x <= rx1 <= w,
                        y < h,
                        start == before.len(),
                        bytes@.len() == start + 4 * (rx1 - x),
                        start + 4 * (rx1 - rx0) <= 4 * w * h,
                        bytes@.subrange(0, start as int) == before,
                        bytes@.subrange(start as int, bytes@.len() as int) =~= row_bytes(
                            pixmap@,
                            w as int,
                            y as int,
                            x as int,
                            rx1 as int,
                        ),
                    decreases x - rx0,
                {
                    assert(y * w + (x - 1) < w * h && (y * w + (x - 1)) * 4 + 3 < 4 * w * h)
                        by (nonlinear_arith)
                        requires
                            1 <= x <= w,
                            y < h,
                    ;
                    let i = (y * w + (x - 1)) * 4;
                    let ghost prev = bytes@;
                    bytes.push(pixmap[i + 2]);
                    bytes.push(pixmap[i + 1]);
                    bytes.push(pixmap[i]);
                    bytes.push(pixmap[i + 3]);
                    x = x - 1;
                    proof {
                        let row = row_bytes(pixmap@, w as int, y as int, x as int, rx1 as int);
                        let m = 4 * (rx1 - x - 1);
                        assert forall|j: int| 0 <= j < row.len() implies bytes@.subrange(
                            start as int,
                            bytes@.len() as int,
                        )[j] == row[j] by {
                            if j < m {
                                assert(bytes@[start + j] == prev[start + j]);
                                assert(prev.subrange(start as int, prev.len() as int)[j]
                                    == row_bytes(pixmap@, w as int, y as int, (x + 1) as int, rx1 as int)[j]);
                            } else {
                                assert(j / 4 == rx1 - x - 1);
                            }
                        }
                        assert(bytes@.subrange(0, start as int) =~= before);
                    }
                }
                assert(bytes@ =~= before + row_bytes(pixmap@, w as int, y as int, rx0 as int, rx1 as int));
                let fb_y = h - 1 - y;
                let fb_x0 = w - rx1;
                assert(fb_y * w + fb_x0 <= w * h && (fb_y * w + fb_x0) * bpp <= w * h * bpp
                    && w * h * bpp <= 4 * w * h * bpp) by (nonlinear_arith)
                    requires
                        fb_y < h,
                        fb_x0 <= w,
                ;
                let offset = (fb_y * w + fb_x0) * bpp;
                let len = bytes.len() - start;
                rows.push(StampRow { offset, start, len });
            }
            assert(4 * w * (y - y0) <= 4 * w * (y + 1 - y0)) by (nonlinear_arith)
                requires
                    y0 <= y,
            ;
            y = y + 1;
        }
        assert(w * h * bpp <= 4 * w * h * bpp) by (nonlinear_arith);
        if rows.len() == 0 {
            return None;
        }
        let hh = if h >= 1 {
            h
        } else {
            1
        };
        let p = yres_virtual / hh;
        let pages = if p < 1 {
            1
        } else if p > 3 {
            3
        } else {
            p
        };
        let stride = w * h * bpp;
        assert(pages * stride <= usize::MAX) by (nonlinear_arith)
            requires
                1 <= pages <= 3,
                stride == w * h * bpp,
                4 * w * h * bpp + 4 * w * h <= usize::MAX,
        ;
        assert forall|i: int| 0 <= i < rows@.len() implies pages * stride + rows@[i].offset
            + rows@[i].len <= usize::MAX by {
            let o = rows@[i].offset;
            let l = rows@[i].len;
            assert(pages * stride + o + l <= usize::MAX) by (nonlinear_arith)
                requires
                    1 <= pages <= 3,
                    stride == w * h * bpp,
                    o <= w * h * bpp,
                    l <= 4 * w,
                    4 * w <= 4 * w * h,
                    4 * w * h * bpp + 4 * w * h <= usize::MAX,
            ;
        }
        Some(Stamp { bytes, rows, pages, page_stride: stride })
    }
}

/// The frame after a row of a stamp is copied into the page at byte `base`: the row's bytes
/// replace those at its offset in the page when they all lie within the frame; otherwise the
/// row is skipped.
pub open spec fn blit_row(frame: Seq<u8>, bytes: Seq<u8>, row: StampRow, base: int) -> Seq<u8> {
    let at = base + row.offset;
    if at + row.len <= frame.len() {
        Seq::new(
            frame.len(),
            |i: int|
                if at <= i < at + row.len {
                    bytes[row.start + i - at]
                } else {
                    frame[i]
                },
        )
    } else {
        frame
    }
}

/// The frame after the first `n` rows of a stamp are copied into the page at byte `base`.
pub open spec fn blit_rows(frame: Seq<u8>, bytes: Seq<u8>, rows: Seq<StampRow>, base: int, n: nat) -> Seq<
    u8,
>
    decreases n,
{
    if n == 0 {
        frame
    } else {
        blit_row(blit_rows(frame, bytes, rows, base, (n - 1) as nat), bytes, rows[n - 1], base)
    }
}

/// The frame after all the rows of a stamp are copied into each of its first `p` pages.
pub open spec fn blit_pages(frame: Seq<u8>, bytes: Seq<u8>, rows: Seq<StampRow>, stride: int, p: nat) -> Seq<
    u8,
>
    decreases p,
{
    if p == 0 {
        frame
    } else {
        blit_rows(
            blit_pages(frame, bytes, rows, stride, (p - 1) as nat),
            bytes,
            rows,
            (p - 1) * stride,
            rows.len(),
        )
    }
}

impl Stamp {
    /// Copies every row of the stamp into every page of `frame`, skipping rows that would not
    /// fit.
    pub fn blit(&self, frame: &mut [u8])
        requires
            self.wf(),
        ensures
            final(frame)@ == blit_pages(
                old(frame)@,
                self.spec_bytes(),
                self.spec_rows(),
                self.spec_page_stride(),
                self.spec_pages() as nat,
            ),
    {
        let ghost start = frame@;
        let mut page: usize = 0;
        while page < self.pages
            invariant
                self.wf(),
                page <= self.pages,
                frame@ == blit_pages(
                    start,
                    self.spec_bytes(),
                    self.spec_rows(),
                    self.spec_page_stride(),
                    page as nat,
                ),
            decreases self.pages - page,
        {
            assert(page * self.page_stride <= self.pages * self.page_stride) by (nonlinear_arith)
                requires
                    page < self.pages,
            ;
            let base = page * self.page_stride;
            let ghost page_start = frame@;
            let mut r: usize = 0;
            while r < self.rows.len()
                invariant
                    self.wf(),
                    page < self.pages,
                    base == page * self.page_stride,
                    base <= self.pages * self.page_stride,
                    r <= self.rows@.len(),
                    frame@.len() == page_start.len(),
                    frame@ == blit_rows(page_start, self.spec_bytes(), self.spec_rows(), base as int, r as nat),
                decreases self.rows@.len() - r,
            {
                let row = self.rows[r];
                assert(row == self.rows@[r as int]);
                assert(base + row.offset + row.len <= usize::MAX);
                assert(row.start + row.len <= self.bytes@.len());
                let at = base + row.offset;
                if at + row.len <= frame.len() {
                    let blen = self.bytes.len();
                    assert(row.start + row.len <= blen);
                    let ghost before = frame@;
                    let mut k: usize = 0;
                    while k < row.len
                        invariant
                            self.wf(),
                            row == self.rows@[r as int],
                            r < self.rows@.len(),
                            at + row.len <= frame@.len(),
                            at + row.len <= usize::MAX,
                            row.start + row.len <= self.bytes@.len(),
                            row.start + row.len <= usize::MAX,
                            frame@.len() == before.len(),
                            k <= row.len,
                            forall|i: int|
                                0 <= i < frame@.len() ==> #[trigger] frame@[i] == if at <= i < at + k {
                                    self.spec_bytes()[row.start + i - at]
                                } else {
                                    before[i]
                                },
                        decreases row.len - k,
                    {
                        frame[at + k] = self.bytes[row.start + k];
                        k = k + 1;
                    }
                    assert(frame@ =~= blit_row(before, self.spec_bytes(), row, base as int));
                }
                r = r + 1;
            }
            page = page + 1;
        }
    }
}

/// Whether a row of a stamp copied into the page at byte `base` of a frame of `len` bytes is
/// written, and covers byte `i`.
pub open spec fn row_covers(row: StampRow, base: int, len: int, i: int) -> bool {
    &&& base + row.offset + row.len <= len
    &&& base + row.offset <= i < base + row.offset + row.len
}

/// The byte that the last of the first `n` rows covering byte `i` writes there, copied into
/// the page at `base` of a frame of `len` bytes; `None` when none of them covers it.
pub open spec fn rows_cover(
    bytes: Seq<u8>,
    rows: Seq<StampRow>,
    base: int,
    len: int,
    i: int,
    n: nat,
) -> Option<u8>
    decreases n,
{
    if n == 0 {
        None
    } else if row_covers(rows[n - 1], base, len, i) {
        Some(bytes[rows[n - 1].start + i - (base + rows[n - 1].offset)])
    } else {
        rows_cover(bytes, rows, base, len, i, (n - 1) as nat)
    }
}

/// The byte that the last write covering byte `i` puts there when all rows are copied into
/// each of the first `p` pages; `None` when none covers it.
pub open spec fn pages_cover(
    bytes: Seq<u8>,
    rows: Seq<StampRow>,
    stride: int,
    len: int,
    i: int,
    p: nat,
) -> Option<u8>
    decreases p,
{
    if p == 0 {
        None
    } else {
        match rows_cover(bytes, rows, (p - 1) * stride, len, i, rows.len()) {
            Some(v) => Some(v),
            None => pages_cover(bytes, rows, stride, len, i, (p - 1) as nat),
        }
    }
}

proof fn lemma_blit_rows_pointwise(frame: Seq<u8>, bytes: Seq<u8>, rows: Seq<StampRow>, base: int, n: nat)
    requires
        n <= rows.len(),
        forall|m: int| 0 <= m < rows.len() ==> #[trigger] rows[m].start + rows[m].len <= bytes.len(),
    ensures
        blit_rows(frame, bytes, rows, base, n).len() == frame.len(),
        forall|i: int|
            0 <= i < frame.len() ==> #[trigger] blit_rows(frame, bytes, rows, base, n)[i] == match rows_cover(
                bytes,
                rows,
                base,
                frame.len() as int,
                i,
                n,
            ) {
                Some(v) => v,
                None => frame[i],
            },
    decreases n,
{
    if n > 0 {
        lemma_blit_rows_pointwise(frame, bytes, rows, base, (n - 1) as nat);
        let g = blit_rows(frame, bytes, rows, base, (n - 1) as nat);
        let row = rows[n - 1];
        assert(row.start + row.len <= bytes.len());
        assert forall|i: int| 0 <= i < frame.len() implies #[trigger] blit_rows(
            frame,
            bytes,
            rows,
            base,
            n,
        )[i] == match rows_cover(bytes, rows, base, frame.len() as int, i, n) {
            Some(v) => v,
            None => frame[i],
        } by {
            assert(g[i] == match rows_cover(bytes, rows, base, frame.len() as int, i, (n - 1) as nat) {
                Some(v) => v,
                None => frame[i],
            });
        }
    }
}

proof fn lemma_blit_pages_pointwise(
    frame: Seq<u8>,
    bytes: Seq<u8>,
    rows: Seq<StampRow>,
    stride: int,
    p: nat,
)
    requires
        forall|m: int| 0 <= m < rows.len() ==> #[trigger] rows[m].start + rows[m].len <= bytes.len(),
    ensures
        blit_pages(frame, bytes, rows, stride, p).len() == frame.len(),
        forall|i: int|
            0 <= i < frame.len() ==> #[trigger] blit_pages(frame, bytes, rows, stride, p)[i]
                == match pages_cover(bytes, rows, stride, frame.len() as int, i, p) {
                Some(v) => v,
                None => frame[i],
            },
    decreases p,
{
    if p > 0 {
        lemma_blit_pages_pointwise(frame, bytes, rows, stride, (p - 1) as nat);
        let g = blit_pages(frame, bytes, rows, stride, (p - 1) as nat);
        lemma_blit_rows_pointwise(g, bytes, rows, (p - 1) * stride, rows.len());
        assert forall|i: int| 0 <= i < frame.len() implies #[trigger] blit_pages(
            frame,
            bytes,
            rows,
            stride,
            p,
        )[i] == match pages_cover(bytes, rows, stride, frame.len() as int, i, p) {
            Some(v) => v,
            None => frame[i],
        } by {
            assert(g[i] == match pages_cover(bytes, rows, stride, frame.len() as int, i, (p - 1) as nat) {
                Some(v) => v,
                None => frame[i],
            });
        }
    }
}

/// Stamping is idempotent: copying a stamp into a frame a second time leaves the frame as the
/// first copy left it, which is why the holding thread may repeat it as often as it likes.
pub proof fn lemma_blit_idempotent(stamp: Stamp, frame: Seq<u8>)
    requires
        stamp.wf(),
    ensures
        ({
            let once = blit_pages(
                frame,
                stamp.spec_bytes(),
                stamp.spec_rows(),
                stamp.spec_page_stride(),
                stamp.spec_pages() as nat,
            );
            blit_pages(
                once,
                stamp.spec_bytes(),
                stamp.spec_rows(),
                stamp.spec_page_stride(),
                stamp.spec_pages() as nat,
            ) == once
        }),
{
    let bytes = stamp.spec_bytes();
    let rows = stamp.spec_rows();
    let stride = stamp.spec_page_stride();
    let p = stamp.spec_pages() as nat;
    assert forall|m: int| 0 <= m < rows.len() implies #[trigger] rows[m].start + rows[m].len
        <= bytes.len() by {}
    let once = blit_pages(frame, bytes, rows, stride, p);
    lemma_blit_pages_pointwise(frame, bytes, rows, stride, p);
    lemma_blit_pages_pointwise(once, bytes, rows, stride, p);
    let twice = blit_pages(once, bytes, rows, stride, p);
    assert(twice =~= once) by {
        assert forall|i: int| 0 <= i < once.len() implies twice[i] == once[i] by {
            assert(once[i] == match pages_cover(bytes, rows, stride, frame.len() as int, i, p) {
                Some(v) => v,
                None => frame[i],
            });
        }
    }
}

proof fn lemma_mul_step(a: int, b: int, w: int)
    by (nonlinear_arith)
    requires
        a < b,
        0 <= w,
    ensures
        a * w + w <= b * w,
{
}

/// Every row of a stamp's first `n` rows lies within its bytes, which are at most `4 * w`
/// bytes a row.
proof fn lemma_stamp_rows_in_bytes(
    pixmap: Seq<u8>,
    w: int,
    h: int,
    x0: int,
    y0: int,
    x1: int,
    insets: Seq<usize>,
    n: nat,
)
    requires
        0 <= x0 < x1 <= w,
        n <= insets.len(),
        forall|m: int| 0 <= m < insets.len() ==> #[trigger] insets[m] <= x1 - x0,
        4 * w * h <= usize::MAX,
        0 <= y0,
        y0 + n <= h,
    ensures
        ({
            let (rows, bytes) = stamp_upto(pixmap, w, h, 4, x0, y0, x1, insets, n);
            &&& bytes.len() <= 4 * w * n
            &&& forall|m: int| 0 <= m < rows.len() ==> #[trigger] rows[m].start + rows[m].len <= bytes.len()
        }),
    decreases n,
{
    if n > 0 {
        lemma_stamp_rows_in_bytes(pixmap, w, h, x0, y0, x1, insets, (n - 1) as nat);
        let (rows, bytes) = stamp_upto(pixmap, w, h, 4, x0, y0, x1, insets, (n - 1) as nat);
        assert(4 * w * (n - 1) + 4 * w == 4 * w * n) by (nonlinear_arith);
        assert(4 * w * n <= 4 * w * h) by (nonlinear_arith)
            requires
                n <= h,
                0 <= w,
        ;
    }
}

/// The first `n` rows and bytes of a stamp begin its first `big` rows and bytes.
proof fn lemma_stamp_prefix(
    pixmap: Seq<u8>,
    w: int,
    h: int,
    x0: int,
    y0: int,
    x1: int,
    insets: Seq<usize>,
    n: nat,
    big: nat,
)
    requires
        n <= big,
    ensures
        ({
            let (r1, b1) = stamp_upto(pixmap, w, h, 4, x0, y0, x1, insets, n);
            let (r2, b2) = stamp_upto(pixmap, w, h, 4, x0, y0, x1, insets, big);
            &&& r1.len() <= r2.len()
            &&& b1.len() <= b2.len()
            &&& r1 == r2.subrange(0, r1.len() as int)
            &&& b1 == b2.subrange(0, b1.len() as int)
        }),
    decreases big - n,
{
    if n < big {
        lemma_stamp_prefix(pixmap, w, h, x0, y0, x1, insets, n, (big - 1) as nat);
        let (r1, b1) = stamp_upto(pixmap, w, h, 4, x0, y0, x1, insets, n);
        let (rm, bm) = stamp_upto(pixmap, w, h, 4, x0, y0, x1, insets, (big - 1) as nat);
        let (r2, b2) = stamp_upto(pixmap, w, h, 4, x0, y0, x1, insets, big);
        assert(r1 =~= r2.subrange(0, r1.len() as int));
        assert(b1 =~= b2.subrange(0, b1.len() as int));
    }
}

/// No row copied into the page at `base` covers a byte before it.
proof fn lemma_rows_cover_before(bytes: Seq<u8>, rows: Seq<StampRow>, base: int, len: int, i: int, n: nat)
    requires
        i < base,
    ensures
        rows_cover(bytes, rows, base, len, i, n) is None,
    decreases n,
{
    if n > 0 {
        lemma_rows_cover_before(bytes, rows, base, len, i, (n - 1) as nat);
    }
}

/// Within the first `n` rows of a stamp copied into the page at `base`, the byte where the
/// framebuffer keeps byte `k` of a kept pixel `(x, y)` is written with that byte of the pixel
/// once row `y` is among them, and by no other row.
proof fn lemma_rows_cover_pixel(
    pixmap: Seq<u8>,
    w: int,
    h: int,
    x0: int,
    y0: int,
    x1: int,
    insets: Seq<usize>,
    n: nat,
    base: int,
    len: int,
    x: int,
    y: int,
    k: int,
)
    requires
        0 <= x0 < x1 <= w,
        0 <= y0,
        y0 + insets.len() <= h,
        n <= insets.len(),
        forall|m: int| 0 <= m < insets.len() ==> #[trigger] insets[m] <= x1 - x0,
        4 * w * h <= usize::MAX,
        0 <= base,
        base + 4 * w * h <= len,
        y0 <= y < y0 + insets.len(),
        x0 + insets[y - y0] <= x < x1 - insets[y - y0],
        0 <= k < 4,
    ensures
        ({
            let (rows, bytes) = stamp_upto(pixmap, w, h, 4, x0, y0, x1, insets, insets.len());
            let (rn, bn) = stamp_upto(pixmap, w, h, 4, x0, y0, x1, insets, n);
            rows_cover(bytes, rows, base, len, base + fb_index(0, w, h, 4, x, y) + k, rn.len())
                == if y < y0 + n {
                Some(bgra_byte(pixmap, w, x, y, k))
            } else {
                None::<u8>
            }
        }),
    decreases n,
{
    let big = insets.len();
    let (rows, bytes) = stamp_upto(pixmap, w, h, 4, x0, y0, x1, insets, big);
    let i = base + fb_index(0, w, h, 4, x, y) + k;
    if n > 0 {
        lemma_rows_cover_pixel(pixmap, w, h, x0, y0, x1, insets, (n - 1) as nat, base, len, x, y, k);
        lemma_stamp_prefix(pixmap, w, h, x0, y0, x1, insets, n, big);
        lemma_stamp_prefix(pixmap, w, h, x0, y0, x1, insets, (n - 1) as nat, n);
        lemma_stamp_rows_in_bytes(pixmap, w, h, x0, y0, x1, insets, (n - 1) as nat);
        let (rp, bp) = stamp_upto(pixmap, w, h, 4, x0, y0, x1, insets, (n - 1) as nat);
        let (rn, bn) = stamp_upto(pixmap, w, h, 4, x0, y0, x1, insets, n);
        let yn = y0 + n - 1;
        let rx0 = x0 + insets[n - 1];
        let rx1 = x1 - insets[n - 1];
        if rx0 < rx1 {
            let row = rn[rp.len() as int];
            assert(rows[rp.len() as int] == row);
            let cy = h - 1 - y;
            let cn = h - 1 - yn;
            assert(0 <= cy * w) by (nonlinear_arith)
                requires
                    0 <= cy,
                    0 <= w,
            ;
            assert(cn * w + w <= h * w) by (nonlinear_arith)
                requires
                    cn < h,
                    0 <= w,
            ;
            assert(4 * w * h == 4 * (h * w)) by (nonlinear_arith);
            assert(0 <= bp.len() <= 4 * w * h) by {
                assert(4 * w * (n - 1) <= 4 * w * h) by (nonlinear_arith)
                    requires
                        n - 1 <= h,
                        0 <= w,
                ;
            }
            assert(row.offset == (cn * w + (w - rx1)) * 4);
            assert(row.len == 4 * (rx1 - rx0));
            assert(row.start == bp.len());
            if y == yn {
                assert(row_covers(row, base, len, i));
                let j = i - (base + row.offset);
                assert(j == (rx1 - 1 - x) * 4 + k);
                assert(bytes[row.start + j] == bn[row.start + j]);
                assert(bn == bp + row_bytes(pixmap, w, yn, rx0, rx1));
                assert(bn[row.start + j] == row_bytes(pixmap, w, yn, rx0, rx1)[j]);
            } else if y < yn {
                lemma_mul_step(cn, cy, w);
                assert(!row_covers(row, base, len, i));
            } else {
                lemma_mul_step(cy, cn, w);
                assert(!row_covers(row, base, len, i));
            }
        } else {
            assert(y != yn);
        }
    }
}

/// A stamp shows the held area as the screen buffer has it: once copied into a frame that
/// holds all its pages, every page has, where the framebuffer keeps pixel `(x, y)`, that
/// pixel's blue, green, red and alpha, for every pixel of the area the rounding keeps.
pub proof fn lemma_stamp_shows_area(
    pixmap: Seq<u8>,
    w: int,
    h: int,
    x0: int,
    y0: int,
    x1: int,
    insets: Seq<usize>,
    pages: int,
    frame: Seq<u8>,
    p: int,
    x: int,
    y: int,
    k: int,
)
    requires
        0 <= x0 < x1 <= w,
        0 <= y0,
        y0 + insets.len() <= h,
        forall|m: int| 0 <= m < insets.len() ==> #[trigger] insets[m] <= x1 - x0,
        4 * w * h <= usize::MAX,
        0 <= p < pages,
        pages * (4 * w * h) <= frame.len(),
        y0 <= y < y0 + insets.len(),
        x0 + insets[y - y0] <= x < x1 - insets[y - y0],
        0 <= k < 4,
    ensures
        ({
            let (rows, bytes) = stamp_upto(pixmap, w, h, 4, x0, y0, x1, insets, insets.len());
            blit_pages(frame, bytes, rows, w * h * 4, pages as nat)[p * (w * h * 4) + fb_index(
                0,
                w,
                h,
                4,
                x,
                y,
            ) + k] == bgra_byte(pixmap, w, x, y, k)
        }),
{
    let big = insets.len();
    let (rows, bytes) = stamp_upto(pixmap, w, h, 4, x0, y0, x1, insets, big);
    let stride = w * h * 4;
    let base = p * stride;
    let i = base + fb_index(0, w, h, 4, x, y) + k;
    lemma_stamp_rows_in_bytes(pixmap, w, h, x0, y0, x1, insets, big);
    assert(stride == 4 * w * h) by (nonlinear_arith)
        requires
            stride == w * h * 4,
    ;
    assert(0 <= base && base + stride <= pages * stride) by (nonlinear_arith)
        requires
            0 <= p < pages,
            0 <= stride,
            base == p * stride,
    ;
    let cy = h - 1 - y;
    assert(0 <= cy * w && cy * w + w <= h * w) by (nonlinear_arith)
        requires
            0 <= cy < h,
            0 <= w,
    ;
    assert(h * w * 4 == stride) by (nonlinear_arith)
        requires
            stride == w * h * 4,
    ;
    assert(0 <= fb_index(0, w, h, 4, x, y) && fb_index(0, w, h, 4, x, y) + k < stride);
    lemma_rows_cover_pixel(pixmap, w, h, x0, y0, x1, insets, big, base, frame.len() as int, x, y, k);
    lemma_blit_pages_pointwise(frame, bytes, rows, stride, pages as nat);
    assert(pages_cover(bytes, rows, stride, frame.len() as int, i, pages as nat) == Some(
        bgra_byte(pixmap, w, x, y, k),
    )) by {
        lemma_pages_cover_page(bytes, rows, stride, frame.len() as int, i, pages as nat, p);
    }
}

/// The last write over byte `i` of page `p` comes from that page: later pages start after it.
proof fn lemma_pages_cover_page(
    bytes: Seq<u8>,
    rows: Seq<StampRow>,
    stride: int,
    len: int,
    i: int,
    count: nat,
    p: int,
)
    requires
        0 <= p < count,
        0 <= stride,
        p * stride <= i < p * stride + stride,
        rows_cover(bytes, rows, p * stride, len, i, rows.len()) is Some,
    ensures
        pages_cover(bytes, rows, stride, len, i, count) == rows_cover(bytes, rows, p * stride, len, i, rows.len()),
    decreases count,
{
    if count - 1 > p {
        assert(p * stride + stride <= (count - 1) * stride) by (nonlinear_arith)
            requires
                p < count - 1,
                0 <= stride,
        ;
        lemma_rows_cover_before(bytes, rows, (count - 1) * stride, len, i, rows.len());
        lemma_pages_cover_page(bytes, rows, stride, len, i, (count - 1) as nat, p);
    }
}

} // verus!
