//! Moving pixels between the screen buffer the interface draws into and the device's
//! framebuffer, which is mounted upside down and stores pixels as blue, green, red, alpha.

use vstd::prelude::*;
use crate::color::{Channels, Color, spec_premultiply};
use crate::geom::{Rect, Size, fits_i32};

verus! {

/// The columns (or rows) of a span from `start` to `end` that lie on a screen `limit` wide:
/// from `max(start, 0)` to `min(max(end, 0), limit)`.
pub open spec fn clip_lo(start: int) -> int {
    if start < 0 {
        0
    } else {
        start
    }
}

/// The end of a span clipped to a screen `limit` wide.
pub open spec fn clip_hi(end: int, limit: int) -> int {
    let e = if end < 0 {
        0
    } else {
        end
    };
    if e <= limit {
        e
    } else {
        limit
    }
}

/// Whether pixel `(x, y)` lies in `rect` clipped to a screen `w` by `h`.
pub open spec fn in_clip(rect: Rect, w: int, h: int, x: int, y: int) -> bool {
    &&& clip_lo(rect.x as int) <= x < clip_hi(rect.spec_right(), w)
    &&& clip_lo(rect.y as int) <= y < clip_hi(rect.spec_bottom(), h)
}

/// Where pixel `(x, y)` of a screen `w` by `h` starts in the framebuffer, whose visible page
/// starts at byte `location`: the framebuffer is turned half a turn, so both axes run
/// backwards.
pub open spec fn fb_index(location: int, w: int, h: int, bpp: int, x: int, y: int) -> int {
    location + ((h - 1 - y) * w + (w - 1 - x)) * bpp
}

/// Where the visible page starts in the framebuffer, from the panning offsets.
pub open spec fn page_location(xoffset: int, yoffset: int, w: int, bpp: int) -> int {
    (yoffset * w + xoffset) * bpp
}

/// Byte `k` of pixel `(x, y)` of an RGBA screen buffer `w` wide, in the framebuffer's order:
/// blue, green, red, alpha.
pub open spec fn bgra_byte(pixmap: Seq<u8>, w: int, x: int, y: int, k: int) -> u8 {
    let i = 4 * (y * w + x);
    if k == 0 {
        pixmap[i + 2]
    } else if k == 1 {
        pixmap[i + 1]
    } else if k == 2 {
        pixmap[i]
    } else {
        pixmap[i + 3]
    }
}

/// The pixel of the screen buffer read back from framebuffer bytes starting at `i`: the
/// blue, green, red and alpha there, premultiplied.
pub open spec fn read_pixel(frame: Seq<u8>, i: int) -> Channels {
    spec_premultiply((frame[i + 2], frame[i + 1], frame[i], frame[i + 3]))
}

/// Pixel `(x, y)` of an RGBA screen buffer `w` wide.
pub open spec fn rgba_pixel(pixmap: Seq<u8>, w: int, x: int, y: int) -> Channels {
    let i = 4 * (y * w + x);
    (pixmap[i], pixmap[i + 1], pixmap[i + 2], pixmap[i + 3])
}

/// The first and one past the last column, and the same for rows, of `rect` on a screen `w`
/// by `h`.
pub fn clip_rect(rect: Rect, w: usize, h: usize) -> (r: (usize, usize, usize, usize))
    requires
        rect.edges_fit(),
    ensures
        r.0 == clip_lo(rect.x as int),
        r.1 == clip_lo(rect.y as int),
        r.2 == clip_hi(rect.spec_right(), w as int),
        r.3 == clip_hi(rect.spec_bottom(), h as int),
{
    let x0 = if rect.x < 0 {
        0
    } else {
        rect.x as usize
    };
    let y0 = if rect.y < 0 {
        0
    } else {
        rect.y as usize
    };
    let right = rect.right();
    let bottom = rect.bottom();
    let r = if right < 0 {
        0
    } else {
        right as usize
    };
    let b = if bottom < 0 {
        0
    } else {
        bottom as usize
    };
    let x1 = if r <= w {
        r
    } else {
        w
    };
    let y1 = if b <= h {
        b
    } else {
        h
    };
    (x0, y0, x1, y1)
}

/// Distinct pixels start at least a pixel's size apart in the framebuffer.
proof fn lemma_fb_apart(location: int, w: int, h: int, bpp: int, x: int, y: int, x2: int, y2: int)
    requires
        0 <= x < w,
        0 <= y < h,
        0 <= x2 < w,
        0 <= y2 < h,
        bpp >= 0,
        x != x2 || y != y2,
    ensures
        fb_index(location, w, h, bpp, x, y) + bpp <= fb_index(location, w, h, bpp, x2, y2)
            || fb_index(location, w, h, bpp, x2, y2) + bpp <= fb_index(
            location,
            w,
            h,
            bpp,
            x,
            y,
        ),
{
    let l1 = (h - 1 - y) * w + (w - 1 - x);
    let l2 = (h - 1 - y2) * w + (w - 1 - x2);
    if l1 == l2 {
        crate::compose::lemma_index_unique(w - 1 - x, h - 1 - y, w - 1 - x2, h - 1 - y2, w);
    }
    assert(l1 + 1 <= l2 || l2 + 1 <= l1);
    assert(l1 * bpp + bpp <= l2 * bpp || l2 * bpp + bpp <= l1 * bpp) by (nonlinear_arith)
        requires
            l1 + 1 <= l2 || l2 + 1 <= l1,
            bpp >= 0,
    ;
}

/// Every pixel of a screen `w` by `h` starts within the page.
proof fn lemma_fb_bound(location: int, w: int, h: int, bpp: int, x: int, y: int)
    requires
        0 <= x < w,
        0 <= y < h,
        bpp >= 0,
        location >= 0,
    ensures
        location <= fb_index(location, w, h, bpp, x, y),
        fb_index(location, w, h, bpp, x, y) + bpp <= location + h * w * bpp,
{
    let l = (h - 1 - y) * w + (w - 1 - x);
    crate::compose::lemma_index_bound(w - 1 - x, h - 1 - y, w, h);
    assert(0 <= l * bpp && l * bpp + bpp <= h * w * bpp) by (nonlinear_arith)
        requires
            0 <= l < w * h,
            bpp >= 0,
    ;
}

/// Copies the pixels of `rect` (clipped to the screen) from `pixmap`, an RGBA buffer `w` by
/// `h`, into the page of `frame` that the offsets select, turned half a turn and as blue,
/// green, red, alpha. Nothing is copied when the page does not fit in `frame`. Where pixels
/// take less than four bytes the copies of neighbours overlap; bytes outside every copied
/// pixel are left alone.
pub fn write_rect_at(
    pixmap: &[u8],
    w: usize,
    h: usize,
    frame: &mut [u8],
    rect: Rect,
    xoffset: usize,
    yoffset: usize,
    bpp: usize,
)
    requires
        pixmap@.len() == 4 * w * h,
        rect.edges_fit(),
        yoffset * w + xoffset <= usize::MAX,
        page_location(xoffset as int, yoffset as int, w as int, bpp as int) + h * w * bpp
            <= usize::MAX,
        page_location(xoffset as int, yoffset as int, w as int, bpp as int) + h * w * bpp
            <= old(frame)@.len() ==> forall|x: int, y: int|
            in_clip(rect, w as int, h as int, x, y) ==> #[trigger] fb_index(
                page_location(xoffset as int, yoffset as int, w as int, bpp as int),
                w as int,
                h as int,
                bpp as int,
                x,
                y,
            ) + 4 <= old(frame)@.len(),
    ensures
        final(frame)@.len() == old(frame)@.len(),
        ({
            let loc = page_location(xoffset as int, yoffset as int, w as int, bpp as int);
            if loc + h * w * bpp > old(frame)@.len() {
                final(frame)@ == old(frame)@
            } else {
                &&& bpp >= 4 ==> forall|x: int, y: int, k: int|
                    in_clip(rect, w as int, h as int, x, y) && 0 <= k < 4
                        ==> final(frame)@[fb_index(
                        loc,
                        w as int,
                        h as int,
                        bpp as int,
                        x,
                        y,
                    ) + k] == #[trigger] bgra_byte(pixmap@, w as int, x, y, k)
                &&& forall|j: int|
                    0 <= j < old(frame)@.len() && (forall|x: int, y: int|
                        in_clip(rect, w as int, h as int, x, y) ==> !(fb_index(
                            loc,
                            w as int,
                            h as int,
                            bpp as int,
                            x,
                            y,
                        ) <= j < fb_index(loc, w as int, h as int, bpp as int, x, y) + 4))
                        ==> #[trigger] final(frame)@[j] == old(frame)@[j]
            }
        }),
{
    let plen = pixmap.len();
    assert(0 <= yoffset * w <= yoffset * w + xoffset) by (nonlinear_arith)
        requires
            yoffset >= 0,
            w >= 0,
            xoffset >= 0,
    ;
    assert(0 <= h * w && 0 <= h * w * bpp && 0 <= (yoffset * w + xoffset) * bpp) by (nonlinear_arith)
        requires
            yoffset * w + xoffset >= 0,
            h >= 0,
            w >= 0,
            bpp >= 0,
    ;
    assert(h * w <= 4 * w * h) by (nonlinear_arith)
        requires
            h >= 0,
            w >= 0,
    ;
    let location = (yoffset * w + xoffset) * bpp;
    if location + h * w * bpp > frame.len() {
        return ;
    }
    let ghost start = frame@;
    let ghost loc = location as int;
    let (x0, y0, x1, y1) = clip_rect(rect, w, h);
    let mut y = y0;
    while y < y1
        invariant
            loc == location,
            plen == pixmap@.len(),
            h * w <= 4 * w * h,
            loc + h * w * bpp <= usize::MAX,
            frame@.len() == start.len(),
            loc + h * w * bpp <= start.len(),
            pixmap@.len() == 4 * w * h,
            x0 == clip_lo(rect.x as int),
            y0 == clip_lo(rect.y as int),
            x1 == clip_hi(rect.spec_right(), w as int),
            y1 == clip_hi(rect.spec_bottom(), h as int),
            y0 <= y,
            y <= if y0 <= y1 {
                y1
            } else {
                y0
            },
            forall|x: int, y: int|
                in_clip(rect, w as int, h as int, x, y) ==> #[trigger] fb_index(
                    loc,
                    w as int,
                    h as int,
                    bpp as int,
                    x,
                    y,
                ) + 4 <= start.len(),
            bpp >= 4 ==> forall|px: int, py: int, k: int|
                in_clip(rect, w as int, h as int, px, py) && py < y && 0 <= k < 4
                    ==> frame@[fb_index(loc, w as int, h as int, bpp as int, px, py) + k]
                    == #[trigger] bgra_byte(pixmap@, w as int, px, py, k),
            forall|j: int|
                0 <= j < start.len() && (forall|px: int, py: int|
                    in_clip(rect, w as int, h as int, px, py) && py < y ==> !(fb_index(
                        loc,
                        w as int,
                        h as int,
                        bpp as int,
                        px,
                        py,
                    ) <= j < fb_index(loc, w as int, h as int, bpp as int, px, py) + 4))
                    ==> #[trigger] frame@[j] == start[j],
        decreases y1 - y,
    {
        let mut x = x0;
        while x < x1
            invariant
                loc == location,
                plen == pixmap@.len(),
                h * w <= 4 * w * h,
                loc + h * w * bpp <= usize::MAX,
                frame@.len() == start.len(),
                loc + h * w * bpp <= start.len(),
                pixmap@.len() == 4 * w * h,
                x0 == clip_lo(rect.x as int),
                y0 == clip_lo(rect.y as int),
                x1 == clip_hi(rect.spec_right(), w as int),
                y1 == clip_hi(rect.spec_bottom(), h as int),
                y0 <= y < y1,
                x0 <= x,
                x <= if x0 <= x1 {
                    x1
                } else {
                    x0
                },
                forall|x: int, y: int|
                    in_clip(rect, w as int, h as int, x, y) ==> #[trigger] fb_index(
                        loc,
                        w as int,
                        h as int,
                        bpp as int,
                        x,
                        y,
                    ) + 4 <= start.len(),
                bpp >= 4 ==> forall|px: int, py: int, k: int|
                    in_clip(rect, w as int, h as int, px, py) && (py < y || (py == y && px < x))
                        && 0 <= k < 4 ==> frame@[fb_index(
                        loc,
                        w as int,
                        h as int,
                        bpp as int,
                        px,
                        py,
                    ) + k] == #[trigger] bgra_byte(pixmap@, w as int, px, py, k),
                forall|j: int|
                    0 <= j < start.len() && (forall|px: int, py: int|
                        in_clip(rect, w as int, h as int, px, py) && (py < y || (py == y && px
                            < x)) ==> !(fb_index(loc, w as int, h as int, bpp as int, px, py) <= j
                            < fb_index(loc, w as int, h as int, bpp as int, px, py) + 4))
                        ==> #[trigger] frame@[j] == start[j],
            decreases x1 - x,
        {
            proof {
                crate::compose::lemma_index_bound(x as int, y as int, w as int, h as int);
                lemma_fb_bound(loc, w as int, h as int, bpp as int, x as int, y as int);
                assert(in_clip(rect, w as int, h as int, x as int, y as int));
            }
            assert((h - y - 1) * w + (w - x - 1) <= h * w && ((h - y - 1) * w + (w - x - 1)) * bpp
                <= h * w * bpp && (h - y - 1) * w <= h * w) by (nonlinear_arith)
                requires
                    y < h,
                    x < w,
                    bpp >= 0,
            ;
            assert(y * w <= y * w + x && 4 * (y * w + x) + 4 <= 4 * w * h) by (nonlinear_arith)
                requires
                    y * w + x < w * h,
                    x >= 0,
            ;
            let idx = 4 * (y * w + x);
            let fb_idx = location + ((h - y - 1) * w + (w - x - 1)) * bpp;
            assert(fb_idx == fb_index(loc, w as int, h as int, bpp as int, x as int, y as int));
            let ghost before = frame@;
            frame[fb_idx] = pixmap[idx + 2];
            frame[fb_idx + 1] = pixmap[idx + 1];
            frame[fb_idx + 2] = pixmap[idx];
            frame[fb_idx + 3] = pixmap[idx + 3];
            proof {
                assert forall|j: int| 0 <= j < start.len() && !(fb_idx <= j < fb_idx + 4) implies frame@[j]
                    == before[j] by {}
                if bpp >= 4 {
                    assert forall|px: int, py: int, k: int|
                        in_clip(rect, w as int, h as int, px, py) && (py < y || (py == y && px < x
                            + 1)) && 0 <= k < 4 implies frame@[fb_index(
                        loc,
                        w as int,
                        h as int,
                        bpp as int,
                        px,
                        py,
                    ) + k] == #[trigger] bgra_byte(pixmap@, w as int, px, py, k) by {
                        if px == x && py == y {
                        } else {
                            lemma_fb_apart(loc, w as int, h as int, bpp as int, x as int, y as int, px, py);
                        }
                    }
                }
                assert forall|j: int|
                    0 <= j < start.len() && (forall|px: int, py: int|
                        in_clip(rect, w as int, h as int, px, py) && (py < y || (py == y && px
                            < x + 1)) ==> !(fb_index(loc, w as int, h as int, bpp as int, px, py) <= j
                            < fb_index(loc, w as int, h as int, bpp as int, px, py) + 4))
                        implies #[trigger] frame@[j] == start[j] by {
                    assert(!(fb_idx <= j < fb_idx + 4));
                }
            }
            x = x + 1;
        }
        y = y + 1;
    }
}

/// Copies the pixels of `rect` (clipped to the screen) from the page of `frame` that the
/// offsets select into `pixmap`, an RGBA buffer `w` by `h`: turned back half a turn, from
/// blue, green, red, alpha to red, green, blue, alpha, and premultiplied. The other pixels
/// of `pixmap` stay as they are.
pub fn read_frame_rect(
    frame: &[u8],
    pixmap: &mut [u8],
    w: usize,
    h: usize,
    rect: Rect,
    xoffset: usize,
    yoffset: usize,
    bpp: usize,
)
    requires
        old(pixmap)@.len() == 4 * w * h,
        rect.edges_fit(),
        yoffset * w + xoffset <= usize::MAX,
        page_location(xoffset as int, yoffset as int, w as int, bpp as int) + h * w * bpp
            <= usize::MAX,
        forall|x: int, y: int|
            in_clip(rect, w as int, h as int, x, y) ==> #[trigger] fb_index(
                page_location(xoffset as int, yoffset as int, w as int, bpp as int),
                w as int,
                h as int,
                bpp as int,
                x,
                y,
            ) + 4 <= frame@.len(),
    ensures
        final(pixmap)@.len() == old(pixmap)@.len(),
        forall|x: int, y: int|
            0 <= x < w && 0 <= y < h ==> #[trigger] rgba_pixel(final(pixmap)@, w as int, x, y)
                == if in_clip(rect, w as int, h as int, x, y) {
                read_pixel(
                    frame@,
                    fb_index(
                        page_location(xoffset as int, yoffset as int, w as int, bpp as int),
                        w as int,
                        h as int,
                        bpp as int,
                        x,
                        y,
                    ),
                )
            } else {
                rgba_pixel(old(pixmap)@, w as int, x, y)
            },
{
    let plen = pixmap.len();
    let flen = frame.len();
    assert(0 <= yoffset * w <= yoffset * w + xoffset) by (nonlinear_arith)
        requires
            yoffset >= 0,
            w >= 0,
            xoffset >= 0,
    ;
    assert(0 <= h * w && 0 <= h * w * bpp && 0 <= (yoffset * w + xoffset) * bpp) by (nonlinear_arith)
        requires
            yoffset * w + xoffset >= 0,
            h >= 0,
            w >= 0,
            bpp >= 0,
    ;
    assert(h * w <= 4 * w * h) by (nonlinear_arith)
        requires
            h >= 0,
            w >= 0,
    ;
    let location = (yoffset * w + xoffset) * bpp;
    let ghost start = pixmap@;
    let ghost loc = location as int;
    let (x0, y0, x1, y1) = clip_rect(rect, w, h);
    let mut y = y0;
    while y < y1
        invariant
            loc == location,
            plen == pixmap@.len(),
            flen == frame@.len(),
            h * w <= 4 * w * h,
            loc + h * w * bpp <= usize::MAX,
            pixmap@.len() == start.len(),
            start.len() == 4 * w * h,
            x0 == clip_lo(rect.x as int),
            y0 == clip_lo(rect.y as int),
            x1 == clip_hi(rect.spec_right(), w as int),
            y1 == clip_hi(rect.spec_bottom(), h as int),
            y0 <= y,
            y <= if y0 <= y1 {
                y1
            } else {
                y0
            },
            forall|x: int, y: int|
                in_clip(rect, w as int, h as int, x, y) ==> #[trigger] fb_index(
                    loc,
                    w as int,
                    h as int,
                    bpp as int,
                    x,
                    y,
                ) + 4 <= frame@.len(),
            forall|px: int, py: int|
                0 <= px < w && 0 <= py < h ==> #[trigger] rgba_pixel(pixmap@, w as int, px, py)
                    == if in_clip(rect, w as int, h as int, px, py) && py < y {
                    read_pixel(frame@, fb_index(loc, w as int, h as int, bpp as int, px, py))
                } else {
                    rgba_pixel(start, w as int, px, py)
                },
        decreases y1 - y,
    {
        let mut x = x0;
        while x < x1
            invariant
                loc == location,
                plen == pixmap@.len(),
                flen == frame@.len(),
                h * w <= 4 * w * h,
                loc + h * w * bpp <= usize::MAX,
                pixmap@.len() == start.len(),
                start.len() == 4 * w * h,
                x0 == clip_lo(rect.x as int),
                y0 == clip_lo(rect.y as int),
                x1 == clip_hi(rect.spec_right(), w as int),
                y1 == clip_hi(rect.spec_bottom(), h as int),
                y0 <= y < y1,
                x0 <= x,
                x <= if x0 <= x1 {
                    x1
                } else {
                    x0
                },
                forall|x: int, y: int|
                    in_clip(rect, w as int, h as int, x, y) ==> #[trigger] fb_index(
                        loc,
                        w as int,
                        h as int,
                        bpp as int,
                        x,
                        y,
                    ) + 4 <= frame@.len(),
                forall|px: int, py: int|
                    0 <= px < w && 0 <= py < h ==> #[trigger] rgba_pixel(pixmap@, w as int, px, py)
                        == if in_clip(rect, w as int, h as int, px, py) && (py < y || (py == y
                        && px < x)) {
                        read_pixel(frame@, fb_index(loc, w as int, h as int, bpp as int, px, py))
                    } else {
                        rgba_pixel(start, w as int, px, py)
                    },
            decreases x1 - x,
        {
            proof {
                crate::compose::lemma_index_bound(x as int, y as int, w as int, h as int);
                lemma_fb_bound(loc, w as int, h as int, bpp as int, x as int, y as int);
                assert(in_clip(rect, w as int, h as int, x as int, y as int));
            }
            assert((h - y - 1) * w + (w - x - 1) <= h * w && ((h - y - 1) * w + (w - x - 1)) * bpp
                <= h * w * bpp && (h - y - 1) * w <= h * w) by (nonlinear_arith)
                requires
                    y < h,
                    x < w,
                    bpp >= 0,
            ;
            assert(y * w <= y * w + x && 4 * (y * w + x) + 4 <= 4 * w * h) by (nonlinear_arith)
                requires
                    y * w + x < w * h,
                    x >= 0,
            ;
            let fb_idx = location + ((h - y - 1) * w + (w - x - 1)) * bpp;
            assert(fb_idx == fb_index(loc, w as int, h as int, bpp as int, x as int, y as int));
            let color = Color::rgba(frame[fb_idx + 2], frame[fb_idx + 1], frame[fb_idx], frame[fb_idx + 3]);
            let p = color.to_premultiplied();
            let idx = 4 * (y * w + x);
            let ghost before = pixmap@;
            pixmap[idx] = p.0;
            pixmap[idx + 1] = p.1;
            pixmap[idx + 2] = p.2;
            pixmap[idx + 3] = p.3;
            proof {
                assert forall|px: int, py: int|
                    0 <= px < w && 0 <= py < h implies #[trigger] rgba_pixel(pixmap@, w as int, px, py)
                        == if in_clip(rect, w as int, h as int, px, py) && (py < y || (py == y
                        && px < x + 1)) {
                        read_pixel(frame@, fb_index(loc, w as int, h as int, bpp as int, px, py))
                    } else {
                        rgba_pixel(start, w as int, px, py)
                    } by {
                    crate::compose::lemma_index_bound(px, py, w as int, h as int);
                    if px == x && py == y {
                    } else {
                        let i = py * w + px;
                        if i == y * w + x {
                            crate::compose::lemma_index_unique(px, py, x as int, y as int, w as int);
                        }
                        assert(4 * i + 4 <= 4 * (y * w + x) || 4 * (y * w + x) + 4 <= 4 * i);
                        assert(4 * i + 4 <= 4 * w * h) by (nonlinear_arith)
                            requires
                                0 <= i < w * h,
                        ;
                        assert(pixmap@[4 * i] == before[4 * i]);
                        assert(pixmap@[4 * i + 1] == before[4 * i + 1]);
                        assert(pixmap@[4 * i + 2] == before[4 * i + 2]);
                        assert(pixmap@[4 * i + 3] == before[4 * i + 3]);
                        assert(rgba_pixel(pixmap@, w as int, px, py) == rgba_pixel(before, w as int, px, py));
                    }
                }
            }
            x = x + 1;
        }
        y = y + 1;
    }
}

/// Writing a rectangle to the framebuffer and reading it back gives back every opaque pixel
/// of it, for pixels of at least four bytes.
pub proof fn lemma_write_then_read_opaque(
    pixmap: Seq<u8>,
    frame_after: Seq<u8>,
    read_back: Seq<u8>,
    pixmap_before_read: Seq<u8>,
    w: int,
    h: int,
    rect: Rect,
    loc: int,
    bpp: int,
    x: int,
    y: int,
)
    requires
        bpp >= 4,
        pixmap.len() == 4 * w * h,
        in_clip(rect, w, h, x, y),
        rgba_pixel(pixmap, w, x, y).3 == 255,
        forall|px: int, py: int, k: int|
            in_clip(rect, w, h, px, py) && 0 <= k < 4 ==> frame_after[fb_index(
                loc,
                w,
                h,
                bpp,
                px,
                py,
            ) + k] == #[trigger] bgra_byte(pixmap, w, px, py, k),
        forall|px: int, py: int|
            0 <= px < w && 0 <= py < h ==> #[trigger] rgba_pixel(read_back, w, px, py) == if in_clip(
                rect,
                w,
                h,
                px,
                py,
            ) {
                read_pixel(frame_after, fb_index(loc, w, h, bpp, px, py))
            } else {
                rgba_pixel(pixmap_before_read, w, px, py)
            },
    ensures
        rgba_pixel(read_back, w, x, y) == rgba_pixel(pixmap, w, x, y),
{
    assert(0 <= x < w && 0 <= y < h);
    let fb = fb_index(loc, w, h, bpp, x, y);
    let i = 4 * (y * w + x);
    assert(frame_after[fb + 0] == bgra_byte(pixmap, w, x, y, 0));
    assert(frame_after[fb + 1] == bgra_byte(pixmap, w, x, y, 1));
    assert(frame_after[fb + 2] == bgra_byte(pixmap, w, x, y, 2));
    assert(frame_after[fb + 3] == bgra_byte(pixmap, w, x, y, 3));
    assert(rgba_pixel(read_back, w, x, y) == read_pixel(frame_after, fb));
    assert(read_pixel(frame_after, fb) == spec_premultiply(
        (pixmap[i], pixmap[i + 1], pixmap[i + 2], pixmap[i + 3]),
    ));
}

/// The area to restore from a saved screen `size`: an area reaching outside the screen is
/// moved to start on it and cut to fit.
pub open spec fn spec_clamp_load_rect(rect: Rect, size: Size) -> Rect {
    if rect.x < 0 || rect.y < 0 || rect.x + rect.w > size.w || rect.y + rect.h > size.h {
        let x = if rect.x < 0 {
            0
        } else {
            rect.x as int
        };
        let y = if rect.y < 0 {
            0
        } else {
            rect.y as int
        };
        Rect {
            x: x as i32,
            y: y as i32,
            w: if rect.w <= size.w - x {
                rect.w
            } else {
                (size.w - x) as u32
            },
            h: if rect.h <= size.h - y {
                rect.h
            } else {
                (size.h - y) as u32
            },
        }
    } else {
        rect
    }
}

/// The area to restore from a saved screen `size`: an area reaching outside the screen is
/// moved to start on it and cut to fit. An area starting beyond the right or bottom edge
/// cannot be cut to fit.
pub fn clamp_load_rect(rect: Rect, size: Size) -> (r: Rect)
    requires
        rect.x < 0 || rect.x + rect.w <= u32::MAX,
        rect.y < 0 || rect.y + rect.h <= u32::MAX,
        rect.x <= size.w,
        rect.y <= size.h,
    ensures
        r == spec_clamp_load_rect(rect, size),
        0 <= r.x && r.x + r.w <= size.w,
        0 <= r.y && r.y + r.h <= size.h,
{
    let mut rect = rect;
    if rect.x < 0 || rect.y < 0 || (rect.x >= 0 && rect.x as u32 + rect.w > size.w) || (rect.y >= 0
        && rect.y as u32 + rect.h > size.h) {
        rect.x = if rect.x < 0 {
            0
        } else {
            rect.x
        };
        rect.y = if rect.y < 0 {
            0
        } else {
            rect.y
        };
        rect.w = if rect.w <= size.w - rect.x as u32 {
            rect.w
        } else {
            size.w - rect.x as u32
        };
        rect.h = if rect.h <= size.h - rect.y as u32 {
            rect.h
        } else {
            size.h - rect.y as u32
        };
    }
    rect
}

/// Copies the pixels of `rect`, which lies on the screen, from `saved` into `pixmap`; both
/// are RGBA buffers `w` wide of the same size. The other pixels stay as they are.
pub fn copy_rect(saved: &[u8], pixmap: &mut [u8], w: usize, h: usize, rect: Rect)
    requires
        saved@.len() == 4 * w * h,
        old(pixmap)@.len() == 4 * w * h,
        0 <= rect.x && rect.x + rect.w <= w,
        0 <= rect.y && rect.y + rect.h <= h,
    ensures
        final(pixmap)@.len() == old(pixmap)@.len(),
        forall|x: int, y: int|
            0 <= x < w && 0 <= y < h ==> #[trigger] rgba_pixel(final(pixmap)@, w as int, x, y)
                == if rect.x <= x < rect.x + rect.w && rect.y <= y < rect.y + rect.h {
                rgba_pixel(saved@, w as int, x, y)
            } else {
                rgba_pixel(old(pixmap)@, w as int, x, y)
            },
{
    let plen = pixmap.len();
    let ghost start = pixmap@;
    let x0 = rect.x as usize;
    let y0 = rect.y as usize;
    let rw = rect.w as usize;
    let rh = rect.h as usize;
    let mut dy: usize = 0;
    while dy < rh
        invariant
            plen == pixmap@.len(),
            pixmap@.len() == start.len(),
            start.len() == 4 * w * h,
            saved@.len() == 4 * w * h,
            x0 == rect.x,
            y0 == rect.y,
            rw == rect.w,
            rh == rect.h,
            x0 + rw <= w,
            y0 + rh <= h,
            0 <= dy <= rh,
            forall|px: int, py: int|
                0 <= px < w && 0 <= py < h ==> #[trigger] rgba_pixel(pixmap@, w as int, px, py)
                    == if x0 <= px < x0 + rw && y0 <= py < y0 + dy {
                    rgba_pixel(saved@, w as int, px, py)
                } else {
                    rgba_pixel(start, w as int, px, py)
                },
        decreases rh - dy,
    {
        let mut dx: usize = 0;
        while dx < rw
            invariant
                plen == pixmap@.len(),
                pixmap@.len() == start.len(),
                start.len() == 4 * w * h,
                saved@.len() == 4 * w * h,
                x0 == rect.x,
                y0 == rect.y,
                rw == rect.w,
                rh == rect.h,
                x0 + rw <= w,
                y0 + rh <= h,
                0 <= dy < rh,
                0 <= dx <= rw,
                forall|px: int, py: int|
                    0 <= px < w && 0 <= py < h ==> #[trigger] rgba_pixel(pixmap@, w as int, px, py)
                        == if x0 <= px < x0 + rw && (y0 <= py < y0 + dy || (py == y0 + dy && x0
                        <= px < x0 + dx)) {
                        rgba_pixel(saved@, w as int, px, py)
                    } else {
                        rgba_pixel(start, w as int, px, py)
                    },
            decreases rw - dx,
        {
            let x = x0 + dx;
            let y = y0 + dy;
            proof {
                crate::compose::lemma_index_bound(x as int, y as int, w as int, h as int);
            }
            assert(y * w <= y * w + x && 4 * (y * w + x) + 4 <= 4 * w * h) by (nonlinear_arith)
                requires
                    y * w + x < w * h,
                    x >= 0,
            ;
            let idx = 4 * (y * w + x);
            let ghost before = pixmap@;
            pixmap[idx] = saved[idx];
            pixmap[idx + 1] = saved[idx + 1];
            pixmap[idx + 2] = saved[idx + 2];
            pixmap[idx + 3] = saved[idx + 3];
            proof {
                assert forall|px: int, py: int|
                    0 <= px < w && 0 <= py < h implies #[trigger] rgba_pixel(pixmap@, w as int, px, py)
                        == if x0 <= px < x0 + rw && (y0 <= py < y0 + dy || (py == y0 + dy && x0
                        <= px < x0 + dx + 1)) {
                        rgba_pixel(saved@, w as int, px, py)
                    } else {
                        rgba_pixel(start, w as int, px, py)
                    } by {
                    crate::compose::lemma_index_bound(px, py, w as int, h as int);
                    if px == x && py == y {
                        assert(pixmap@[idx as int] == saved@[idx as int]);
                        assert(pixmap@[idx + 1] == saved@[idx + 1]);
                        assert(pixmap@[idx + 2] == saved@[idx + 2]);
                        assert(pixmap@[idx + 3] == saved@[idx + 3]);
                        assert(rgba_pixel(pixmap@, w as int, px, py) == rgba_pixel(saved@, w as int, px, py));
                    } else {
                        let i = py * w + px;
                        if i == y * w + x {
                            crate::compose::lemma_index_unique(px, py, x as int, y as int, w as int);
                        }
                        assert(4 * i + 4 <= 4 * (y * w + x) || 4 * (y * w + x) + 4 <= 4 * i);
                        assert(4 * i + 4 <= 4 * w * h) by (nonlinear_arith)
                            requires
                                0 <= i < w * h,
                        ;
                        assert(pixmap@[4 * i] == before[4 * i]);
                        assert(pixmap@[4 * i + 1] == before[4 * i + 1]);
                        assert(pixmap@[4 * i + 2] == before[4 * i + 2]);
                        assert(pixmap@[4 * i + 3] == before[4 * i + 3]);
                        assert(rgba_pixel(pixmap@, w as int, px, py) == rgba_pixel(before, w as int, px, py));
                    }
                }
            }
            dx = dx + 1;
        }
        dy = dy + 1;
    }
}

/// A screen of packed pixels turned half a turn, for a panel mounted upside down: the pixels
/// in reverse order.
pub fn rotated_half_turn(buffer: &[u32]) -> (r: Vec<u32>)
    ensures
        r@ == buffer@.reverse(),
{
    let n = buffer.len();
    let mut r: Vec<u32> = Vec::new();
    let mut i = n;
    while i > 0
        invariant
            i <= n == buffer@.len(),
            r@.len() == n - i,
            forall|k: int| 0 <= k < n - i ==> #[trigger] r@[k] == buffer@[n - 1 - k],
        decreases i,
    {
        i = i - 1;
        r.push(buffer[i]);
    }
    assert(r@ =~= buffer@.reverse());
    r
}

/// Turning a screen half a turn twice gives it back.
pub proof fn lemma_half_turn_twice(buffer: Seq<u32>)
    ensures
        buffer.reverse().reverse() =~= buffer,
{
}

/// Moves the page at byte `location` of the framebuffer to its start, as a page flip back to
/// the first page needs (`slice::copy_within`): the first `size` bytes become the page's,
/// and the bytes after them stay as they were.
pub fn move_page_to_front(frame: &mut [u8], location: usize, size: usize)
    requires
        location + size <= old(frame)@.len(),
    ensures
        final(frame)@ == old(frame)@.subrange(location as int, (location + size) as int) + old(
            frame,
        )@.subrange(size as int, old(frame)@.len() as int),
{
    let ghost start = frame@;
    let n = frame.len();
    let mut k: usize = 0;
    while k < size
        invariant
            location + size <= start.len() == n,
            frame@.len() == start.len(),
            k <= size,
            forall|i: int| 0 <= i < k ==> #[trigger] frame@[i] == start[location + i],
            forall|i: int| k <= i < start.len() ==> #[trigger] frame@[i] == start[i],
        decreases size - k,
    {
        let b = frame[location + k];
        frame[k] = b;
        k = k + 1;
    }
    assert(frame@ =~= start.subrange(location as int, (location + size) as int) + start.subrange(
        size as int,
        start.len() as int,
    ));
}

} // verus!
